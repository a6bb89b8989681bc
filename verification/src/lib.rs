//! A terminal snake game, split into a verified core and a thin I/O shell.
//!
//! The core is the snake's body model (`snake`) and the per-tick game rules
//! (`game`): movement, direction changes, collision detection, food
//! placement and scoring. Terminal drawing and keyboard polling live
//! outside the library and hand the core plain key events.

pub mod game;
pub mod snake;
