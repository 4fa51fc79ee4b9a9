//! The game state machine: tick processing, lifecycle transitions, fruit
//! placement and scoring.
//!
//! One tick is one input command (or none) followed by phase dispatch: while
//! Running the snake advances, the fruit-eat check runs, and collisions end
//! the game; Paused waits for Resume; Ended waits for Restart or Quit; a
//! Restart rebuilds the whole aggregate from scratch.
//!
//! Scoring quirk, kept deliberately: every successful fruit placement
//! increments the score, the initial placement included, so the score reads 2
//! after the very first fruit is eaten.

use vstd::prelude::*;

use crate::geometry::{Coord, HEIGHT, WIDTH, in_interior, spec_in_interior, spec_out_of_bounds};
use crate::rng::random_interior_coordinate;
use crate::snake::{Direction, Snake, start_coordinate, step};

verus! {

/// A player command, as delivered by the input source once per tick.
#[derive(Clone, Copy, PartialEq, Eq, Structural, Debug)]
pub enum Command {
    MoveUp,
    MoveDown,
    MoveLeft,
    MoveRight,
    Pause,
    Resume,
    Restart,
    Quit,
}

/// The game-lifecycle phase.
#[derive(Clone, Copy, PartialEq, Eq, Structural, Debug)]
pub enum GamePhase {
    Running,
    Paused,
    Ended,
    Restarting,
    Exiting,
}

/// How many random draws a fruit spawn may make before giving up.
pub const SPAWN_RETRY_CAP: u32 = 1000;

/// The whole game aggregate: snake, fruit, score and lifecycle phase.
pub struct Game {
    pub snake: Snake,
    /// The single active fruit position.
    pub fruit_pos: Coord,
    /// Incremented once per successful fruit placement, initial spawn included.
    pub snake_score: u16,
    pub game_state: GamePhase,
    /// Set when a fruit spawn ran out of retries; the game then ends.
    pub spawn_exhausted: bool,
}

impl Game {
    /// Well-formedness: the snake body is never empty; while the game is
    /// Running or Paused the head lies on the playfield and no spawn has
    /// failed.
    pub open spec fn wf(self) -> bool {
        &&& self.snake.wf()
        &&& (self.game_state == GamePhase::Running || self.game_state == GamePhase::Paused)
            ==> !spec_out_of_bounds(self.snake.head()) && !self.spawn_exhausted
    }

    /// A freshly built game: one snake segment at the canonical start, headed
    /// right, score 1 (the initial spawn's increment), an interior fruit off
    /// the body, Running.
    pub open spec fn fresh(self) -> bool {
        &&& self.snake.body@ =~= seq![start_coordinate()]
        &&& self.snake.direction == Direction::Right
        &&& self.snake_score == 1
        &&& spec_in_interior(self.fruit_pos)
        &&& !self.snake.body@.contains(self.fruit_pos)
        &&& self.game_state == GamePhase::Running
        &&& !self.spawn_exhausted
    }

    /// Fields other than fruit and score are shared between `pre` and `post`:
    /// what a fruit placement may never touch.
    pub open spec fn same_but_fruit(pre: Game, post: Game) -> bool {
        &&& post.snake == pre.snake
        &&& post.game_state == pre.game_state
        &&& post.spawn_exhausted == pre.spawn_exhausted
    }

    /// A successful spawn relative to `pre`: an interior fruit off the snake
    /// body, score up by one, everything else untouched.
    pub open spec fn spawn_succeeded(pre: Game, post: Game) -> bool {
        &&& Game::same_but_fruit(pre, post)
        &&& spec_in_interior(post.fruit_pos)
        &&& !post.snake.body@.contains(post.fruit_pos)
        &&& post.snake_score == pre.snake_score + 1
    }

    /// An exhausted spawn relative to `pre`: fruit and score untouched, the
    /// game marked Ended with the exhaustion flag set.
    pub open spec fn spawn_failed(pre: Game, post: Game) -> bool {
        &&& post.snake == pre.snake
        &&& post.fruit_pos == pre.fruit_pos
        &&& post.snake_score == pre.snake_score
        &&& post.game_state == GamePhase::Ended
        &&& post.spawn_exhausted
    }

    /// Builds a fresh game: single-segment snake at the start coordinate,
    /// direction Right, and an initial fruit spawn (which contributes the
    /// first score increment, leaving the score at 1).
    pub fn build() -> (g: Game)
        ensures
            g.wf(),
            g.snake.body@ =~= seq![start_coordinate()],
            g.snake.direction == Direction::Right,
            g.game_state == GamePhase::Running ==> g.fresh(),
            g.game_state == GamePhase::Running || (g.game_state == GamePhase::Ended
                && g.spawn_exhausted),
    {
        let mut g = Game {
            snake: Snake::new(),
            fruit_pos: Coord { col: 1, row: 1 },
            snake_score: 0,
            game_state: GamePhase::Running,
            spawn_exhausted: false,
        };
        g.fruit_spawn();
        g
    }

    /// Places the fruit at `c` if `c` is a legal spot: strictly interior and
    /// not on the snake body. A successful placement increments the score.
    /// Returns whether the fruit was placed; on failure nothing changes.
    pub fn fruit_place(&mut self, c: Coord) -> (placed: bool)
        requires
            old(self).snake.wf(),
            old(self).snake_score < u16::MAX,
        ensures
            placed == (spec_in_interior(c) && !old(self).snake.body@.contains(c)),
            placed ==> Game::spawn_succeeded(*old(self), *final(self)) && final(self).fruit_pos
                == c,
            !placed ==> *final(self) == *old(self),
    {
        if in_interior(c) && !body_contains(&self.snake.body, c) {
            self.fruit_pos = c;
            self.snake_score = self.snake_score + 1;
            true
        } else {
            false
        }
    }

    /// Draws random interior coordinates, rejecting any draw that lands on the
    /// snake body, until a placement succeeds or the retry cap runs out. On
    /// success the score goes up by one; on exhaustion the game ends with the
    /// exhaustion flag set.
    pub fn fruit_spawn(&mut self) -> (placed: bool)
        requires
            old(self).snake.wf(),
            old(self).snake_score < u16::MAX,
        ensures
            placed ==> Game::spawn_succeeded(*old(self), *final(self)),
            !placed ==> Game::spawn_failed(*old(self), *final(self)),
    {
        let ghost pre = *self;
        let mut tries: u32 = 0;
        while tries < SPAWN_RETRY_CAP
            invariant
                pre == *old(self),
                *self == pre,
                self.snake.wf(),
                self.snake_score < u16::MAX,
            decreases SPAWN_RETRY_CAP - tries,
        {
            let c = random_interior_coordinate();
            if self.fruit_place(c) {
                return true;
            }
            tries = tries + 1;
        }
        self.game_state = GamePhase::Ended;
        self.spawn_exhausted = true;
        false
    }

    /// Advances the snake one cell in its travel direction: the new head is
    /// appended, the tail stays (the eat check pops it later if nothing was
    /// eaten). Touches nothing but the snake body.
    pub fn snake_move(&mut self)
        requires
            old(self).snake.wf(),
            i8::MIN < old(self).snake.head().col < i8::MAX,
            i8::MIN < old(self).snake.head().row < i8::MAX,
        ensures
            final(self).snake.body@ == old(self).snake.body@.push(
                step(old(self).snake.head(), old(self).snake.direction),
            ),
            final(self).snake.head() == step(old(self).snake.head(), old(self).snake.direction),
            final(self).snake.direction == old(self).snake.direction,
            final(self).fruit_pos == old(self).fruit_pos,
            final(self).snake_score == old(self).snake_score,
            final(self).game_state == old(self).game_state,
            final(self).spawn_exhausted == old(self).spawn_exhausted,
    {
        self.snake.advance();
    }

    /// The fruit-eat check: if the head sits on the fruit, the fruit respawns
    /// (net growth of one, score up by one unless the spawn ran out of
    /// retries) and true comes back; otherwise the tail is popped, keeping
    /// the length constant, and false comes back.
    pub fn fruit_eat(&mut self) -> (ate: bool)
        requires
            old(self).snake.wf(),
            old(self).snake_score < u16::MAX,
            old(self).snake.head() != old(self).fruit_pos ==> old(self).snake.body@.len() >= 2,
        ensures
            ate == (old(self).snake.head() == old(self).fruit_pos),
            ate ==> final(self).snake == old(self).snake && (Game::spawn_succeeded(
                *old(self),
                *final(self),
            ) || Game::spawn_failed(*old(self), *final(self))),
            !ate ==> final(self).snake.body@ == old(self).snake.body@.drop_first()
                && final(self).snake.direction == old(self).snake.direction
                && final(self).fruit_pos == old(self).fruit_pos
                && final(self).snake_score == old(self).snake_score
                && final(self).game_state == old(self).game_state
                && final(self).spawn_exhausted == old(self).spawn_exhausted,
            ate ==> final(self).snake.body@.len() == old(self).snake.body@.len(),
            !ate ==> final(self).snake.body@.len() == old(self).snake.body@.len() - 1,
    {
        let head = self.snake.body[self.snake.body.len() - 1];
        if head.col == self.fruit_pos.col && head.row == self.fruit_pos.row {
            self.fruit_spawn();
            true
        } else {
            self.snake.shrink_tail();
            false
        }
    }

    /// Ends the game when the snake has just collided: the head equals some
    /// earlier body segment, or lies beyond the playfield frame. Otherwise
    /// the phase is left alone. Nothing else changes.
    pub fn check_collision(&mut self)
        requires
            old(self).snake.wf(),
        ensures
            final(self).snake == old(self).snake,
            final(self).fruit_pos == old(self).fruit_pos,
            final(self).snake_score == old(self).snake_score,
            final(self).spawn_exhausted == old(self).spawn_exhausted,
            final(self).game_state == (if old(self).snake.spec_self_collision()
                || spec_out_of_bounds(old(self).snake.head()) {
                GamePhase::Ended
            } else {
                old(self).game_state
            }),
    {
        if self.snake.has_self_collision() {
            self.game_state = GamePhase::Ended;
        }
        if self.snake.is_head_out_of_bounds() {
            self.game_state = GamePhase::Ended;
        }
    }

    /// Handles the command sampled this tick, before phase dispatch: Quit
    /// always wins and leads straight to Exiting; while Running a movement
    /// command steers the snake and Pause pauses; Paused accepts only Resume;
    /// Ended accepts only Restart. Anything else is silently ignored.
    pub fn handle_key_events(&mut self, cmd: Option<Command>)
        requires
            old(self).wf(),
        ensures
            final(self).wf(),
            final(self).game_state == phase_after_command(old(self).game_state, cmd),
            final(self).snake.direction == direction_after_command(
                old(self).game_state,
                old(self).snake.direction,
                cmd,
            ),
            final(self).snake.body == old(self).snake.body,
            final(self).fruit_pos == old(self).fruit_pos,
            final(self).snake_score == old(self).snake_score,
            final(self).spawn_exhausted == old(self).spawn_exhausted,
            cmd == Some(Command::Quit) ==> final(self).game_state == GamePhase::Exiting,
    {
        match cmd {
            None => {},
            Some(Command::Quit) => {
                self.game_state = GamePhase::Exiting;
            },
            Some(c) => {
                match self.game_state {
                    GamePhase::Running => {
                        match c {
                            Command::MoveUp => {
                                self.snake.direction = Direction::Up;
                            },
                            Command::MoveDown => {
                                self.snake.direction = Direction::Down;
                            },
                            Command::MoveLeft => {
                                self.snake.direction = Direction::Left;
                            },
                            Command::MoveRight => {
                                self.snake.direction = Direction::Right;
                            },
                            Command::Pause => {
                                self.game_state = GamePhase::Paused;
                            },
                            _ => {},
                        }
                    },
                    GamePhase::Paused => {
                        if c == Command::Resume {
                            self.game_state = GamePhase::Running;
                        }
                    },
                    GamePhase::Ended => {
                        if c == Command::Restart {
                            self.game_state = GamePhase::Restarting;
                        }
                    },
                    _ => {},
                }
            },
        }
    }

    /// One tick of the game loop: handle the sampled command (Quit always
    /// wins), then dispatch on the phase the command left. While Running the
    /// snake advances, the fruit-eat check runs (popping the tail unless the
    /// fruit was eaten), and a self-collision or an out-of-bounds head ends
    /// the game on this same tick. A Restart accepted from Ended rebuilds the
    /// whole aggregate from scratch before the tick returns. Paused, Ended
    /// and Exiting ticks change nothing beyond the command's own effect.
    pub fn tick(&mut self, cmd: Option<Command>)
        requires
            old(self).wf(),
            old(self).snake_score < u16::MAX,
        ensures
            final(self).wf(),
            cmd == Some(Command::Quit) ==> final(self).game_state == GamePhase::Exiting,
            (phase_after_command(old(self).game_state, cmd) == GamePhase::Paused
                || phase_after_command(old(self).game_state, cmd) == GamePhase::Ended
                || phase_after_command(old(self).game_state, cmd) == GamePhase::Exiting)
                ==> final(self).snake.body@ == old(self).snake.body@
                && final(self).snake.direction == direction_after_command(
                    old(self).game_state,
                    old(self).snake.direction,
                    cmd,
                )
                && final(self).fruit_pos == old(self).fruit_pos
                && final(self).snake_score == old(self).snake_score
                && final(self).spawn_exhausted == old(self).spawn_exhausted
                && final(self).game_state == phase_after_command(old(self).game_state, cmd),
            phase_after_command(old(self).game_state, cmd) == GamePhase::Running
                ==> final(self).snake.body@ == moved_body(*old(self), cmd)
                && final(self).snake.direction == direction_after_command(
                    old(self).game_state,
                    old(self).snake.direction,
                    cmd,
                )
                && final(self).snake.head() == new_head(*old(self), cmd)
                && (eats(*old(self), cmd)
                    ==> final(self).snake.body@.len() == old(self).snake.body@.len() + 1)
                && (eats(*old(self), cmd) && !final(self).spawn_exhausted
                    ==> final(self).snake_score == old(self).snake_score + 1
                    && spec_in_interior(final(self).fruit_pos)
                    && !final(self).snake.body@.contains(final(self).fruit_pos))
                && (eats(*old(self), cmd) && final(self).spawn_exhausted
                    ==> final(self).snake_score == old(self).snake_score
                    && final(self).fruit_pos == old(self).fruit_pos)
                && (!eats(*old(self), cmd)
                    ==> final(self).snake.body@.len() == old(self).snake.body@.len()
                    && final(self).snake_score == old(self).snake_score
                    && final(self).fruit_pos == old(self).fruit_pos
                    && !final(self).spawn_exhausted)
                && final(self).game_state == (if final(self).spawn_exhausted {
                    GamePhase::Ended
                } else if final(self).snake.spec_self_collision() || spec_out_of_bounds(
                    new_head(*old(self), cmd),
                ) {
                    GamePhase::Ended
                } else {
                    GamePhase::Running
                }),
            phase_after_command(old(self).game_state, cmd) == GamePhase::Restarting
                ==> final(self).snake.body@ =~= seq![start_coordinate()]
                && final(self).snake.direction == Direction::Right
                && (final(self).game_state == GamePhase::Running ==> final(self).fresh())
                && (final(self).game_state == GamePhase::Running || (final(self).game_state
                    == GamePhase::Ended && final(self).spawn_exhausted)),
    {
        self.handle_key_events(cmd);
        match self.game_state {
            GamePhase::Running => {
                self.snake_move();
                self.fruit_eat();
                self.check_collision();
            },
            GamePhase::Restarting => {
                *self = Game::build();
            },
            _ => {},
        }
    }
}

/// The phase that handling `cmd` in phase `phase` leaves, before any movement
/// of the tick runs. Quit wins from every phase; Pause, Resume and Restart
/// are honoured only in the one phase that accepts each of them; every other
/// command leaves the phase alone.
pub open spec fn phase_after_command(phase: GamePhase, cmd: Option<Command>) -> GamePhase {
    if cmd == Some(Command::Quit) {
        GamePhase::Exiting
    } else if phase == GamePhase::Running && cmd == Some(Command::Pause) {
        GamePhase::Paused
    } else if phase == GamePhase::Paused && cmd == Some(Command::Resume) {
        GamePhase::Running
    } else if phase == GamePhase::Ended && cmd == Some(Command::Restart) {
        GamePhase::Restarting
    } else {
        phase
    }
}

/// The travel direction after handling `cmd`: a movement command steers the
/// snake only while the game is Running; nothing else touches the direction.
pub open spec fn direction_after_command(
    phase: GamePhase,
    dir: Direction,
    cmd: Option<Command>,
) -> Direction {
    if phase == GamePhase::Running {
        match cmd {
            Some(Command::MoveUp) => Direction::Up,
            Some(Command::MoveDown) => Direction::Down,
            Some(Command::MoveLeft) => Direction::Left,
            Some(Command::MoveRight) => Direction::Right,
            _ => dir,
        }
    } else {
        dir
    }
}

/// Boundary law: a well-formed game in the Running phase keeps its head on
/// the playfield, frame cells included: `1 <= col <= WIDTH + 1` and
/// `1 <= row <= HEIGHT + 1`. A movement that takes the head beyond this
/// region ends the game on the same tick (see the phase clause of `tick`),
/// so no Running state with a head outside it is ever reachable.
pub proof fn lemma_running_head_in_bounds(g: Game)
    requires
        g.wf(),
        g.game_state == GamePhase::Running,
    ensures
        1 <= g.snake.head().col <= WIDTH + 1,
        1 <= g.snake.head().row <= HEIGHT + 1,
{
}

/// The head coordinate a movement tick produces from game `g` after handling
/// `cmd`: one step from the current head in the (possibly just steered)
/// direction.
pub open spec fn new_head(g: Game, cmd: Option<Command>) -> Coord {
    step(
        g.snake.head(),
        direction_after_command(g.game_state, g.snake.direction, cmd),
    )
}

/// Whether the movement of this tick lands the head on the fruit.
pub open spec fn eats(g: Game, cmd: Option<Command>) -> bool {
    new_head(g, cmd) == g.fruit_pos
}

/// The snake body a movement tick leaves: the new head appended, and the
/// tail popped unless the fruit was eaten.
pub open spec fn moved_body(g: Game, cmd: Option<Command>) -> Seq<Coord> {
    if eats(g, cmd) {
        g.snake.body@.push(new_head(g, cmd))
    } else {
        g.snake.body@.push(new_head(g, cmd)).drop_first()
    }
}

/// True when some body segment equals `c`.
fn body_contains(body: &Vec<Coord>, c: Coord) -> (r: bool)
    ensures
        r == body@.contains(c),
{
    let mut i: usize = 0;
    while i < body.len()
        invariant
            0 <= i <= body@.len(),
            forall|j: int| 0 <= j < i ==> body@[j] != c,
        decreases body@.len() - i,
    {
        if body[i] == c {
            return true;
        }
        i = i + 1;
    }
    false
}

} // verus!
