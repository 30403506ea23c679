//! Translates game-controller input (button presses, analog stick and trigger
//! motion) into synthesized keyboard events for up to two players sharing one
//! machine, with an interactive runtime rebinding workflow.
//!
//! The crate holds the event translation engine: per-player binding tables,
//! the analog-to-digital hysteresis state machine (including directional-pad
//! emulation from an analog stick), and the interactive rebinding protocol.
//! Device polling, keystroke injection and console I/O are left to the caller.

pub mod input;
pub mod hysteresis;
pub mod bindings;
pub mod registry;
pub mod engine;
pub mod command;
