//! The per-channel hysteresis latch: turns a continuous signed 16-bit analog
//! reading into a one-shot press/release edge, suppressing repeated triggers
//! while the channel stays deflected.

use vstd::prelude::*;

use crate::input::{AxisChannel, ButtonId, KeyDirection};

verus! {

/// Half of the maximum signed 16-bit magnitude: the single global deflection
/// threshold, identical for triggers and sticks. A reading sitting exactly at
/// the threshold counts as not deflected (strict comparison).
pub const DEFLECTION_THRESHOLD: i16 = 16383;

/// A reading is deflected when its magnitude strictly exceeds the threshold.
pub open spec fn spec_deflected(value: i16) -> bool {
    value > DEFLECTION_THRESHOLD || value < -DEFLECTION_THRESHOLD
}

/// Decides whether a raw analog reading counts as deflected.
pub fn is_deflected(value: i16) -> (r: bool)
    ensures
        r == spec_deflected(value),
{
    value > DEFLECTION_THRESHOLD || value < -DEFLECTION_THRESHOLD
}

/// One hysteresis transition: given the stored latch and a fresh reading,
/// yields the new latch and the edge to emit, if any. An edge is emitted
/// exactly when the computed deflected-state differs from the stored latch.
pub open spec fn latch_step(latched: bool, value: i16) -> (bool, Option<KeyDirection>) {
    let deflected = spec_deflected(value);
    if deflected == latched {
        (latched, None)
    } else {
        (
            deflected,
            Some(if deflected {
                KeyDirection::Press
            } else {
                KeyDirection::Release
            }),
        )
    }
}

/// Runs one hysteresis transition on a raw reading.
pub fn hysteresis_step(latched: bool, value: i16) -> (r: (bool, Option<KeyDirection>))
    ensures
        r == latch_step(latched, value),
{
    let deflected = is_deflected(value);
    if deflected == latched {
        (latched, None)
    } else {
        (
            deflected,
            Some(if deflected {
                KeyDirection::Press
            } else {
                KeyDirection::Release
            }),
        )
    }
}

/// A channel starting unlatched emits exactly one press when a reading
/// crosses the threshold and flips the latch; further deflected readings
/// emit nothing; a reading back below the threshold emits exactly one
/// release and flips the latch back.
pub proof fn lemma_hysteresis_edges(rise: i16, hold: i16, fall: i16)
    requires
        spec_deflected(rise),
        spec_deflected(hold),
        !spec_deflected(fall),
    ensures
        latch_step(false, rise) == (true, Some(KeyDirection::Press)),
        latch_step(true, hold) == (true, None::<KeyDirection>),
        latch_step(true, fall) == (false, Some(KeyDirection::Release)),
{
}

/// The four latched analog channels of one connected controller, the
/// hysteresis memory. Created all-clear when the controller connects and
/// destroyed when it disconnects.
#[derive(Clone, Copy, PartialEq, Eq, Structural, Debug)]
pub struct AnalogLatches {
    pub trigger_right: bool,
    pub trigger_left: bool,
    pub stick_x: bool,
    pub stick_y: bool,
}

/// Names one of the four latch slots.
#[derive(Clone, Copy, PartialEq, Eq, Structural, Debug)]
pub enum LatchChannel {
    TriggerRight,
    TriggerLeft,
    StickX,
    StickY,
}

impl AnalogLatches {
    /// The all-clear latch state a freshly connected controller starts in.
    pub open spec fn cleared() -> AnalogLatches {
        AnalogLatches { trigger_right: false, trigger_left: false, stick_x: false, stick_y: false }
    }

    /// Builds the all-clear latch state.
    pub fn new() -> (r: AnalogLatches)
        ensures
            r == AnalogLatches::cleared(),
    {
        AnalogLatches { trigger_right: false, trigger_left: false, stick_x: false, stick_y: false }
    }

    /// The stored latch of one channel.
    pub open spec fn get(self, ch: LatchChannel) -> bool {
        match ch {
            LatchChannel::TriggerRight => self.trigger_right,
            LatchChannel::TriggerLeft => self.trigger_left,
            LatchChannel::StickX => self.stick_x,
            LatchChannel::StickY => self.stick_y,
        }
    }

    /// The latch state with one channel replaced.
    pub open spec fn set(self, ch: LatchChannel, v: bool) -> AnalogLatches {
        match ch {
            LatchChannel::TriggerRight => AnalogLatches { trigger_right: v, ..self },
            LatchChannel::TriggerLeft => AnalogLatches { trigger_left: v, ..self },
            LatchChannel::StickX => AnalogLatches { stick_x: v, ..self },
            LatchChannel::StickY => AnalogLatches { stick_y: v, ..self },
        }
    }

    /// Reads the stored latch of one channel.
    pub fn read(&self, ch: LatchChannel) -> (b: bool)
        ensures
            b == self.get(ch),
    {
        match ch {
            LatchChannel::TriggerRight => self.trigger_right,
            LatchChannel::TriggerLeft => self.trigger_left,
            LatchChannel::StickX => self.stick_x,
            LatchChannel::StickY => self.stick_y,
        }
    }

    /// Returns the latch state with one channel replaced.
    pub fn written(self, ch: LatchChannel, v: bool) -> (r: AnalogLatches)
        ensures
            r == self.set(ch, v),
    {
        match ch {
            LatchChannel::TriggerRight => AnalogLatches { trigger_right: v, ..self },
            LatchChannel::TriggerLeft => AnalogLatches { trigger_left: v, ..self },
            LatchChannel::StickX => AnalogLatches { stick_x: v, ..self },
            LatchChannel::StickY => AnalogLatches { stick_y: v, ..self },
        }
    }
}

/// The latch slot an axis channel is tracked under, if it is tracked at all:
/// the two triggers and the two left-stick channels are; the right stick is
/// not.
pub open spec fn spec_latch_channel_of(axis: AxisChannel) -> Option<LatchChannel> {
    match axis {
        AxisChannel::TriggerRight => Some(LatchChannel::TriggerRight),
        AxisChannel::TriggerLeft => Some(LatchChannel::TriggerLeft),
        AxisChannel::LeftX => Some(LatchChannel::StickX),
        AxisChannel::LeftY => Some(LatchChannel::StickY),
        AxisChannel::RightX => None,
        AxisChannel::RightY => None,
    }
}

/// Maps an axis channel to its latch slot.
pub fn latch_channel_of(axis: AxisChannel) -> (r: Option<LatchChannel>)
    ensures
        r == spec_latch_channel_of(axis),
{
    match axis {
        AxisChannel::TriggerRight => Some(LatchChannel::TriggerRight),
        AxisChannel::TriggerLeft => Some(LatchChannel::TriggerLeft),
        AxisChannel::LeftX => Some(LatchChannel::StickX),
        AxisChannel::LeftY => Some(LatchChannel::StickY),
        AxisChannel::RightX => None,
        AxisChannel::RightY => None,
    }
}

/// Whether a latch slot belongs to a trigger (as opposed to a stick axis).
pub open spec fn spec_is_trigger(ch: LatchChannel) -> bool {
    ch == LatchChannel::TriggerRight || ch == LatchChannel::TriggerLeft
}

/// The directional-pad button a stick deflection stands for: the sign of the
/// raw value selects one of the two opposing buttons. Meaningful only for the
/// two left-stick channels.
pub open spec fn spec_stick_button(axis: AxisChannel, value: i16) -> ButtonId
    recommends
        axis == AxisChannel::LeftX || axis == AxisChannel::LeftY,
{
    if axis == AxisChannel::LeftX {
        if value > 0 {
            ButtonId::DPadRight
        } else {
            ButtonId::DPadLeft
        }
    } else {
        if value > 0 {
            ButtonId::DPadDown
        } else {
            ButtonId::DPadUp
        }
    }
}

/// Picks the directional-pad button a stick deflection stands for.
pub fn stick_button(axis: AxisChannel, value: i16) -> (r: ButtonId)
    requires
        axis == AxisChannel::LeftX || axis == AxisChannel::LeftY,
    ensures
        r == spec_stick_button(axis, value),
{
    if matches!(axis, AxisChannel::LeftX) {
        if value > 0 {
            ButtonId::DPadRight
        } else {
            ButtonId::DPadLeft
        }
    } else {
        if value > 0 {
            ButtonId::DPadDown
        } else {
            ButtonId::DPadUp
        }
    }
}

/// The pair of opposing directional-pad buttons released together when a
/// stick channel leaves deflection, in emission order. Both are released
/// unconditionally, since the sign may have flipped between polls without an
/// intermediate neutral reading being observed.
pub open spec fn spec_stick_release_pair(axis: AxisChannel) -> (ButtonId, ButtonId)
    recommends
        axis == AxisChannel::LeftX || axis == AxisChannel::LeftY,
{
    if axis == AxisChannel::LeftX {
        (ButtonId::DPadRight, ButtonId::DPadLeft)
    } else {
        (ButtonId::DPadDown, ButtonId::DPadUp)
    }
}

/// Picks the pair of opposing directional-pad buttons to release together.
pub fn stick_release_pair(axis: AxisChannel) -> (r: (ButtonId, ButtonId))
    requires
        axis == AxisChannel::LeftX || axis == AxisChannel::LeftY,
    ensures
        r == spec_stick_release_pair(axis),
{
    if matches!(axis, AxisChannel::LeftX) {
        (ButtonId::DPadRight, ButtonId::DPadLeft)
    } else {
        (ButtonId::DPadDown, ButtonId::DPadUp)
    }
}

} // verus!
