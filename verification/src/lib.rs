//! A grid-based snake game engine: a player-controlled segment chain grows by
//! consuming spawned fruit while avoiding self-collision and the playfield
//! border. The engine owns the whole game state and its lifecycle; rendering
//! and input polling are left to the surrounding process loop.

pub mod game;
pub mod geometry;
pub mod rng;
pub mod snake;
