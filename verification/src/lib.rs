//! Deterministic core of a handheld bouncing-ball game: Q8.8 arithmetic, the
//! playfield simulation and its rasterizer, and the pure encoders that the
//! hardware bindings build on.

pub mod calib;
pub mod fixedpoint;
pub mod hex;
pub mod keypad;
pub mod oled;
pub mod pin;
pub mod playfield;
pub mod timer;
