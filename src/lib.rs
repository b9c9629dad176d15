//! Driver logic for Hitachi HD44780-compatible character LCD controllers.
//!
//! The library models the controller's configuration, encodes its instruction
//! bytes, sequences its power-on initialization and lowers every byte into the
//! exact series of line writes and waits that a bit-banged bus must perform.
//! Driving the physical lines and sleeping is left to the caller.
pub mod command;
pub mod pins;
pub mod transmit;
pub mod lcd;
pub mod laws;
pub mod demo;

pub use command::{BusWidth, CharSize, DisplayControl, DisplayFunction, EntryMode, Lines};
pub use lcd::{InitPhase, LCD};
pub use pins::{BindingError, GpioPin, Level, Line, Pins};
pub use transmit::{PinOp, Transfer};
