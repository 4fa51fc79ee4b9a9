use snake_game::game::{Game, GamePhase};
use snake_game::geometry::{in_interior, is_out_of_bounds, Coord, HEIGHT, WIDTH};
use snake_game::rng::random_interior_coordinate;
use snake_game::snake::{Direction, Snake};

fn at(col: i8, row: i8) -> Coord {
    Coord { col, row }
}

#[test]
fn bounds_check_on_every_edge() {
    assert!(is_out_of_bounds(at(0, 5)));
    assert!(is_out_of_bounds(at(-1, 5)));
    assert!(!is_out_of_bounds(at(1, 5)));
    assert!(!is_out_of_bounds(at(WIDTH, 5)));
    assert!(!is_out_of_bounds(at(WIDTH + 1, 5)));
    assert!(is_out_of_bounds(at(WIDTH + 2, 5)));
    assert!(is_out_of_bounds(at(5, 0)));
    assert!(!is_out_of_bounds(at(5, 1)));
    assert!(!is_out_of_bounds(at(5, HEIGHT + 1)));
    assert!(is_out_of_bounds(at(5, HEIGHT + 2)));
}

#[test]
fn interior_excludes_the_border() {
    assert!(in_interior(at(1, 1)));
    assert!(in_interior(at(WIDTH - 2, HEIGHT - 2)));
    assert!(!in_interior(at(0, 5)));
    assert!(!in_interior(at(WIDTH - 1, 5)));
    assert!(!in_interior(at(5, 0)));
    assert!(!in_interior(at(5, HEIGHT - 1)));
}

#[test]
fn random_interior_coordinates_stay_interior() {
    for _ in 0..200 {
        let c = random_interior_coordinate();
        assert!(1 <= c.col && c.col < WIDTH - 1);
        assert!(1 <= c.row && c.row < HEIGHT - 1);
    }
}

#[test]
fn fresh_snake_is_one_segment_headed_right() {
    let s = Snake::new();
    assert_eq!(s.body, vec![at(7, 7)]);
    assert_eq!(s.direction, Direction::Right);
}

#[test]
fn advance_appends_the_shifted_head() {
    let mut s = Snake::new();
    s.advance();
    assert_eq!(s.body, vec![at(7, 7), at(8, 7)]);
    s.direction = Direction::Up;
    s.advance();
    assert_eq!(s.body, vec![at(7, 7), at(8, 7), at(8, 6)]);
}

#[test]
fn shrink_tail_pops_the_oldest_segment() {
    let mut s = Snake::new();
    s.advance();
    s.advance();
    s.shrink_tail();
    assert_eq!(s.body, vec![at(8, 7), at(9, 7)]);
}

#[test]
fn self_collision_compares_head_against_earlier_segments() {
    let clear = Snake {
        body: vec![at(1, 1), at(2, 1), at(3, 1)],
        direction: Direction::Left,
    };
    assert!(!clear.has_self_collision());
    let folded = Snake {
        body: vec![at(1, 1), at(2, 1), at(3, 1), at(2, 1)],
        direction: Direction::Left,
    };
    assert!(folded.has_self_collision());
}

#[test]
fn head_out_of_bounds_delegates_to_geometry() {
    let inside = Snake {
        body: vec![at(7, 7)],
        direction: Direction::Right,
    };
    assert!(!inside.is_head_out_of_bounds());
    let outside = Snake {
        body: vec![at(7, 7), at(WIDTH + 2, 7)],
        direction: Direction::Right,
    };
    assert!(outside.is_head_out_of_bounds());
}

fn game_on(body: Vec<Coord>, fruit: Coord) -> Game {
    Game {
        snake: Snake {
            body,
            direction: Direction::Right,
        },
        fruit_pos: fruit,
        snake_score: 1,
        game_state: GamePhase::Running,
        spawn_exhausted: false,
    }
}

#[test]
fn fruit_placement_accepts_a_free_interior_cell() {
    let mut g = game_on(vec![at(7, 7)], at(3, 3));
    assert!(g.fruit_place(at(8, 7)));
    assert_eq!(g.fruit_pos, at(8, 7));
    assert_eq!(g.snake_score, 2);
}

#[test]
fn fruit_placement_rejects_the_snake_body() {
    let mut g = game_on(vec![at(7, 7), at(8, 7)], at(3, 3));
    assert!(!g.fruit_place(at(8, 7)));
    assert_eq!(g.fruit_pos, at(3, 3));
    assert_eq!(g.snake_score, 1);
}

#[test]
fn fruit_placement_rejects_border_and_beyond() {
    let mut g = game_on(vec![at(7, 7)], at(3, 3));
    assert!(!g.fruit_place(at(0, 5)));
    assert!(!g.fruit_place(at(WIDTH - 1, 5)));
    assert!(!g.fruit_place(at(5, HEIGHT - 1)));
    assert_eq!(g.fruit_pos, at(3, 3));
    assert_eq!(g.snake_score, 1);
}

#[test]
fn spawned_fruit_never_lands_on_the_body() {
    let mut body = vec![];
    for col in 1..WIDTH - 1 {
        body.push(at(col, 7));
    }
    for _ in 0..50 {
        let mut g = game_on(body.clone(), at(3, 3));
        assert!(g.fruit_spawn());
        assert!(!g.snake.body.contains(&g.fruit_pos));
        assert!(1 <= g.fruit_pos.col && g.fruit_pos.col < WIDTH - 1);
        assert!(1 <= g.fruit_pos.row && g.fruit_pos.row < HEIGHT - 1);
        assert_eq!(g.snake_score, 2);
        assert_eq!(g.game_state, GamePhase::Running);
    }
}
