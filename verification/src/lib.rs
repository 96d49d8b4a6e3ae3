//! A two-player paddle-and-ball simulation whose only rendering surface is
//! a remote shared pixel canvas.
//!
//! The library holds everything that can be reasoned about: the intent
//! state machine that resolves overlapping key presses, the world model and
//! its fixed-tick physics (paddle movement, wall bounce, angle-based paddle
//! reflection, scoring), the pixel lists that the render streamers emit,
//! the fixed-timestep accumulator of the simulation driver, and the wire
//! encoding of colors. Network, input devices, threads and clocks stay in
//! unverified glue around it.

pub mod color;
pub mod driver;
pub mod game;
pub mod intent;
pub mod key;
pub mod render;
pub mod trig;
