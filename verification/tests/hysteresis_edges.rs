use padmap::hysteresis::{hysteresis_step, is_deflected, latch_channel_of, AnalogLatches,
    LatchChannel};
use padmap::input::{AxisChannel, KeyDirection};

#[test]
fn threshold_is_strict() {
    assert!(!is_deflected(16383));
    assert!(is_deflected(16384));
    assert!(!is_deflected(-16383));
    assert!(is_deflected(-16384));
    assert!(!is_deflected(0));
    assert!(is_deflected(i16::MAX));
    assert!(is_deflected(i16::MIN));
}

#[test]
fn crossing_up_emits_one_press_and_latches() {
    assert_eq!(hysteresis_step(false, 30000), (true, Some(KeyDirection::Press)));
}

#[test]
fn staying_deflected_emits_nothing() {
    assert_eq!(hysteresis_step(true, 30000), (true, None));
    assert_eq!(hysteresis_step(true, 20000), (true, None));
}

#[test]
fn crossing_down_emits_one_release_and_unlatches() {
    assert_eq!(hysteresis_step(true, 0), (false, Some(KeyDirection::Release)));
}

#[test]
fn staying_neutral_emits_nothing() {
    assert_eq!(hysteresis_step(false, 0), (false, None));
    assert_eq!(hysteresis_step(false, 16383), (false, None));
}

#[test]
fn right_stick_channels_are_untracked() {
    assert_eq!(latch_channel_of(AxisChannel::RightX), None);
    assert_eq!(latch_channel_of(AxisChannel::RightY), None);
    assert_eq!(latch_channel_of(AxisChannel::LeftX), Some(LatchChannel::StickX));
    assert_eq!(latch_channel_of(AxisChannel::TriggerRight), Some(LatchChannel::TriggerRight));
}

#[test]
fn new_latches_are_all_clear() {
    let l = AnalogLatches::new();
    assert!(!l.trigger_right && !l.trigger_left && !l.stick_x && !l.stick_y);
    let l2 = l.written(LatchChannel::StickY, true);
    assert!(l2.stick_y && !l2.stick_x);
    assert!(l2.read(LatchChannel::StickY));
}
