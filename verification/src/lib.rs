//! A terminal snake game, verified.
//!
//! The library holds everything the game decides or computes: decimal
//! formatting, the escape-sequence renderer, the termios transform for raw
//! mode, the retry/failure policy of the system-call shim, and the game
//! engine itself. The thin runtime that performs the actual reads, writes,
//! sleeps and random draws lives outside the library and hands it plain
//! values.

pub mod digits;
pub mod game;
pub mod render;
pub mod shim;
pub mod term;
