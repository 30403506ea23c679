//! The plain data model of the engine: players, controller inputs, output
//! keys, device events and the key events the engine emits.

use vstd::prelude::*;

verus! {

/// One of the exactly two logical players sharing the machine.
#[derive(Clone, Copy, PartialEq, Eq, Structural, Debug)]
pub enum PlayerIndex {
    First,
    Second,
}

/// An analog channel of a controller, as the device reports it.
/// Only the left stick and the two triggers drive the engine; the right
/// stick channels are recognized but ignored.
#[derive(Clone, Copy, PartialEq, Eq, Structural, Debug)]
pub enum AxisChannel {
    LeftX,
    LeftY,
    RightX,
    RightY,
    TriggerLeft,
    TriggerRight,
}

/// A digital button of a controller. The engine only ever distinguishes the
/// four directional-pad buttons; every other button is carried as an opaque
/// code assigned by the caller.
#[derive(Clone, Copy, PartialEq, Eq, Structural, Debug)]
pub enum ButtonId {
    DPadUp,
    DPadDown,
    DPadLeft,
    DPadRight,
    Other(u8),
}

/// A keyboard key the engine asks the caller to synthesize: a printable
/// character, a platform key code, or the escape key.
#[derive(Clone, Copy, PartialEq, Eq, Structural, Debug)]
pub enum OutputKey {
    Unicode(char),
    Other(u32),
    Escape,
}

/// A bindable controller input: an analog channel or a digital button.
/// Identity is exact (kind, id) equality; it serves as a map key.
#[derive(Clone, Copy, PartialEq, Eq, Structural, Debug)]
pub enum LogicalInput {
    Analog(AxisChannel),
    Digital(ButtonId),
}

/// Whether a key event presses or releases the key.
#[derive(Clone, Copy, PartialEq, Eq, Structural, Debug)]
pub enum KeyDirection {
    Press,
    Release,
}

/// One synthesized keyboard event the engine asks the caller to emit.
#[derive(Clone, Copy, PartialEq, Eq, Structural, Debug)]
pub struct KeyEvent {
    pub key: OutputKey,
    pub direction: KeyDirection,
}

/// A device event handed to the engine. `which` is the controller instance
/// id the input subsystem assigned when the device connected. `DeviceAdded`
/// reports a controller that the caller opened successfully; a failed open
/// is dropped at the boundary and never reaches the engine.
#[derive(Clone, Copy, PartialEq, Eq, Structural, Debug)]
pub enum DeviceEvent {
    ButtonDown { which: u32, button: ButtonId },
    ButtonUp { which: u32, button: ButtonId },
    AxisMotion { which: u32, axis: AxisChannel, value: i16 },
    DeviceAdded { which: u32 },
    DeviceRemoved { which: u32 },
    Quit,
}

/// The fixed directional-pad key table for one player: one output key per
/// direction, defined at startup from platform-specific key codes.
#[derive(Clone, Copy, PartialEq, Eq, Structural, Debug)]
pub struct DirectionTable {
    pub up: OutputKey,
    pub down: OutputKey,
    pub left: OutputKey,
    pub right: OutputKey,
}

/// One entry of a player's fixed ordered action list: a label shown while
/// capturing and the output key the captured input will be bound to.
pub struct ActionEntry {
    pub label: String,
    pub key: OutputKey,
}

} // verus!
