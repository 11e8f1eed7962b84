//! Input handling for a free-fly camera: which keys drive which controls, and
//! which controls are currently held down.

pub mod input;
