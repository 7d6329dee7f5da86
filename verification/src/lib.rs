//! Simulation core of a grid-based snake game: a deterministic, tick-driven
//! state machine that buffers directional input, advances the snake, detects
//! wall and self collisions, spawns and consumes food, grows the snake, and
//! resets to a canonical start state on game over.

pub mod grid;
pub mod laws;
pub mod spawner;
pub mod state;
