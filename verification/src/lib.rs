//! Core of a grid snake game: the snake advances one cell per tick, grows
//! when it eats food, and the game ends when it leaves the grid or runs into
//! its own body. Rendering and input live outside this crate; here is the
//! game's state machine, with its contracts.

pub mod game;
pub mod laws;
mod rng;
