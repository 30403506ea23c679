use padmap::engine::{Engine, EngineMode};
use padmap::input::{
    ActionEntry, AxisChannel, ButtonId, DeviceEvent, DirectionTable, KeyDirection, KeyEvent,
    LogicalInput, OutputKey, PlayerIndex,
};

fn action(label: &str, key: OutputKey) -> ActionEntry {
    ActionEntry { label: String::from(label), key }
}

fn player_one_actions() -> Vec<ActionEntry> {
    vec![
        action("Punch", OutputKey::Unicode('a')),
        action("Kick", OutputKey::Unicode('s')),
        action("Slash", OutputKey::Unicode('d')),
        action("Heavy Slash", OutputKey::Unicode('q')),
        action("Original Action", OutputKey::Unicode('w')),
        action("Special Action", OutputKey::Unicode('e')),
        action("Pause", OutputKey::Escape),
    ]
}

fn player_two_actions() -> Vec<ActionEntry> {
    vec![
        action("Punch", OutputKey::Unicode('j')),
        action("Kick", OutputKey::Unicode('k')),
        action("Slash", OutputKey::Unicode('l')),
        action("Heavy Slash", OutputKey::Unicode('i')),
        action("Original Action", OutputKey::Unicode('o')),
        action("Special Action", OutputKey::Unicode('p')),
        action("Pause", OutputKey::Escape),
    ]
}

fn player_one_directions() -> DirectionTable {
    DirectionTable {
        up: OutputKey::Unicode('t'),
        down: OutputKey::Unicode('b'),
        left: OutputKey::Unicode('f'),
        right: OutputKey::Unicode('h'),
    }
}

fn player_two_directions() -> DirectionTable {
    DirectionTable {
        up: OutputKey::Other(0xffb8),
        down: OutputKey::Other(0xffb2),
        left: OutputKey::Other(0xffb4),
        right: OutputKey::Other(0xffb6),
    }
}

fn fresh_engine() -> Engine {
    Engine::new(
        player_one_actions(),
        player_two_actions(),
        player_one_directions(),
        player_two_directions(),
    )
}

fn press_event(key: OutputKey) -> KeyEvent {
    KeyEvent { key, direction: KeyDirection::Press }
}

fn release_event(key: OutputKey) -> KeyEvent {
    KeyEvent { key, direction: KeyDirection::Release }
}

#[test]
fn rebind_session_captures_seven_actions_then_dispatches() {
    let mut e = fresh_engine();
    let out = e.step(DeviceEvent::DeviceAdded { which: 7 });
    assert!(out.events.is_empty() && !out.quit);
    e.begin_rebind(PlayerIndex::First);
    assert!(matches!(e.current_mode(), EngineMode::Capturing { player: PlayerIndex::First, next_action: 0, .. }));
    for i in 0..7u8 {
        let out = e.step(DeviceEvent::ButtonDown { which: 7, button: ButtonId::Other(i + 1) });
        assert!(out.events.is_empty());
    }
    assert_eq!(e.current_mode(), EngineMode::Dispatch);

    // The first captured button now yields exactly one press of the first
    // action's key, and the matching button-up exactly one release.
    let out = e.step(DeviceEvent::ButtonDown { which: 7, button: ButtonId::Other(1) });
    assert_eq!(out.events, vec![press_event(OutputKey::Unicode('a'))]);
    let out = e.step(DeviceEvent::ButtonUp { which: 7, button: ButtonId::Other(1) });
    assert_eq!(out.events, vec![release_event(OutputKey::Unicode('a'))]);

    // Directional defaults were seeded on the capturing controller.
    let out = e.step(DeviceEvent::ButtonDown { which: 7, button: ButtonId::DPadLeft });
    assert_eq!(out.events, vec![press_event(OutputKey::Unicode('f'))]);
}

#[test]
fn trigger_round_trip_yields_press_then_release_exactly() {
    let mut e = fresh_engine();
    e.step(DeviceEvent::DeviceAdded { which: 4 });
    e.bindings.bind(
        PlayerIndex::First,
        4,
        LogicalInput::Analog(AxisChannel::TriggerRight),
        OutputKey::Unicode('x'),
    );
    let polls = [0i16, 30000, 0];
    let mut emitted: Vec<KeyEvent> = Vec::new();
    for v in polls {
        let out = e.step(DeviceEvent::AxisMotion {
            which: 4,
            axis: AxisChannel::TriggerRight,
            value: v,
        });
        emitted.extend(out.events);
    }
    assert_eq!(
        emitted,
        vec![press_event(OutputKey::Unicode('x')), release_event(OutputKey::Unicode('x'))]
    );
}

#[test]
fn repeated_deflection_emits_nothing_further() {
    let mut e = fresh_engine();
    e.step(DeviceEvent::DeviceAdded { which: 4 });
    e.bindings.bind(
        PlayerIndex::First,
        4,
        LogicalInput::Analog(AxisChannel::TriggerLeft),
        OutputKey::Unicode('x'),
    );
    let out = e.step(DeviceEvent::AxisMotion { which: 4, axis: AxisChannel::TriggerLeft, value: 20000 });
    assert_eq!(out.events.len(), 1);
    let out = e.step(DeviceEvent::AxisMotion { which: 4, axis: AxisChannel::TriggerLeft, value: 32000 });
    assert!(out.events.is_empty());
    let out = e.step(DeviceEvent::AxisMotion { which: 4, axis: AxisChannel::TriggerLeft, value: 17000 });
    assert!(out.events.is_empty());
    let out = e.step(DeviceEvent::AxisMotion { which: 4, axis: AxisChannel::TriggerLeft, value: 100 });
    assert_eq!(out.events, vec![release_event(OutputKey::Unicode('x'))]);
}

#[test]
fn stick_release_frees_both_opposing_buttons() {
    let mut e = fresh_engine();
    e.step(DeviceEvent::DeviceAdded { which: 2 });
    e.seed_directions(PlayerIndex::First, 2);

    // Leftward deflection presses only the left directional key.
    let out = e.step(DeviceEvent::AxisMotion { which: 2, axis: AxisChannel::LeftX, value: -30000 });
    assert_eq!(out.events, vec![press_event(OutputKey::Unicode('f'))]);

    // Returning to neutral releases both opposing keys, right first, even
    // though the right one was never pressed.
    let out = e.step(DeviceEvent::AxisMotion { which: 2, axis: AxisChannel::LeftX, value: 0 });
    assert_eq!(
        out.events,
        vec![release_event(OutputKey::Unicode('h')), release_event(OutputKey::Unicode('f'))]
    );
}

#[test]
fn vertical_stick_release_frees_down_then_up() {
    let mut e = fresh_engine();
    e.step(DeviceEvent::DeviceAdded { which: 2 });
    e.seed_directions(PlayerIndex::Second, 2);
    let out = e.step(DeviceEvent::AxisMotion { which: 2, axis: AxisChannel::LeftY, value: 28000 });
    assert_eq!(out.events, vec![press_event(OutputKey::Other(0xffb2))]);
    let out = e.step(DeviceEvent::AxisMotion { which: 2, axis: AxisChannel::LeftY, value: 1000 });
    assert_eq!(
        out.events,
        vec![release_event(OutputKey::Other(0xffb2)), release_event(OutputKey::Other(0xffb8))]
    );
}

#[test]
fn seeding_wins_over_a_captured_dpad_binding() {
    let mut e = fresh_engine();
    e.step(DeviceEvent::DeviceAdded { which: 3 });
    e.begin_rebind(PlayerIndex::First);
    // Capture the dpad-up button for the first action ("Punch" = 'a') ...
    e.step(DeviceEvent::ButtonDown { which: 3, button: ButtonId::DPadUp });
    for i in 0..6u8 {
        e.step(DeviceEvent::ButtonDown { which: 3, button: ButtonId::Other(i + 1) });
    }
    assert_eq!(e.current_mode(), EngineMode::Dispatch);
    // ... yet after seeding, dpad-up maps to the direction table's key.
    assert_eq!(
        e.lookup(PlayerIndex::First, 3, LogicalInput::Digital(ButtonId::DPadUp)),
        Some(OutputKey::Unicode('t'))
    );
}

#[test]
fn seeding_targets_the_last_capturing_controller() {
    let mut e = fresh_engine();
    e.step(DeviceEvent::DeviceAdded { which: 7 });
    e.step(DeviceEvent::DeviceAdded { which: 9 });
    e.begin_rebind(PlayerIndex::Second);
    for i in 0..6u8 {
        e.step(DeviceEvent::ButtonDown { which: 7, button: ButtonId::Other(i + 1) });
    }
    e.step(DeviceEvent::ButtonDown { which: 9, button: ButtonId::Other(7) });
    assert_eq!(e.current_mode(), EngineMode::Dispatch);
    assert_eq!(
        e.lookup(PlayerIndex::Second, 9, LogicalInput::Digital(ButtonId::DPadUp)),
        Some(OutputKey::Other(0xffb8))
    );
    assert_eq!(e.lookup(PlayerIndex::Second, 7, LogicalInput::Digital(ButtonId::DPadUp)), None);
}

#[test]
fn rebind_entry_clears_only_that_player() {
    let mut e = fresh_engine();
    e.step(DeviceEvent::DeviceAdded { which: 1 });
    e.bindings.bind(
        PlayerIndex::First,
        1,
        LogicalInput::Digital(ButtonId::Other(2)),
        OutputKey::Unicode('x'),
    );
    e.bindings.bind(
        PlayerIndex::Second,
        1,
        LogicalInput::Digital(ButtonId::Other(2)),
        OutputKey::Unicode('y'),
    );
    e.begin_rebind(PlayerIndex::First);
    assert_eq!(e.lookup(PlayerIndex::First, 1, LogicalInput::Digital(ButtonId::Other(2))), None);
    assert_eq!(
        e.lookup(PlayerIndex::Second, 1, LogicalInput::Digital(ButtonId::Other(2))),
        Some(OutputKey::Unicode('y'))
    );
}

#[test]
fn capture_accepts_a_trigger_crossing_and_overwrites_on_recapture() {
    let mut e = fresh_engine();
    e.step(DeviceEvent::DeviceAdded { which: 5 });
    e.begin_rebind(PlayerIndex::First);
    // A trigger crossing into deflection captures the first action.
    let out = e.step(DeviceEvent::AxisMotion { which: 5, axis: AxisChannel::TriggerRight, value: 25000 });
    assert!(out.events.is_empty());
    assert!(matches!(e.current_mode(), EngineMode::Capturing { next_action: 1, .. }));
    assert_eq!(
        e.lookup(PlayerIndex::First, 5, LogicalInput::Analog(AxisChannel::TriggerRight)),
        Some(OutputKey::Unicode('a'))
    );
    // Falling back to neutral is not a capture, it only updates the latch.
    e.step(DeviceEvent::AxisMotion { which: 5, axis: AxisChannel::TriggerRight, value: 0 });
    assert!(matches!(e.current_mode(), EngineMode::Capturing { next_action: 1, .. }));
    // Crossing again captures the second action onto the same input,
    // overwriting the first action's key.
    e.step(DeviceEvent::AxisMotion { which: 5, axis: AxisChannel::TriggerRight, value: 25000 });
    assert!(matches!(e.current_mode(), EngineMode::Capturing { next_action: 2, .. }));
    assert_eq!(
        e.lookup(PlayerIndex::First, 5, LogicalInput::Analog(AxisChannel::TriggerRight)),
        Some(OutputKey::Unicode('s'))
    );
}

#[test]
fn capture_ignores_button_up_and_stick_motion() {
    let mut e = fresh_engine();
    e.step(DeviceEvent::DeviceAdded { which: 5 });
    e.begin_rebind(PlayerIndex::First);
    e.step(DeviceEvent::ButtonUp { which: 5, button: ButtonId::Other(1) });
    e.step(DeviceEvent::AxisMotion { which: 5, axis: AxisChannel::LeftX, value: 30000 });
    e.step(DeviceEvent::AxisMotion { which: 5, axis: AxisChannel::RightY, value: 30000 });
    assert!(matches!(e.current_mode(), EngineMode::Capturing { next_action: 0, .. }));
}

#[test]
fn capture_applies_connection_housekeeping() {
    let mut e = fresh_engine();
    e.step(DeviceEvent::DeviceAdded { which: 5 });
    e.begin_rebind(PlayerIndex::First);
    e.step(DeviceEvent::DeviceAdded { which: 6 });
    assert!(e.is_registered(6));
    e.step(DeviceEvent::DeviceRemoved { which: 5 });
    assert!(!e.is_registered(5));
    assert!(matches!(e.current_mode(), EngineMode::Capturing { next_action: 0, .. }));
}

#[test]
fn disconnect_leaves_bindings_dormant_and_events_miss_quietly() {
    let mut e = fresh_engine();
    e.step(DeviceEvent::DeviceAdded { which: 7 });
    e.bindings.bind(
        PlayerIndex::First,
        7,
        LogicalInput::Digital(ButtonId::Other(3)),
        OutputKey::Unicode('a'),
    );
    let out = e.step(DeviceEvent::DeviceRemoved { which: 7 });
    assert!(out.events.is_empty());
    assert!(!e.is_registered(7));
    // Button events referencing the old id are a normal miss: no output.
    let out = e.step(DeviceEvent::ButtonDown { which: 7, button: ButtonId::Other(3) });
    assert!(out.events.is_empty());
    let out = e.step(DeviceEvent::ButtonUp { which: 7, button: ButtonId::Other(3) });
    assert!(out.events.is_empty());
    // Removing it again changes nothing.
    let out = e.step(DeviceEvent::DeviceRemoved { which: 7 });
    assert!(out.events.is_empty());
    // The dormant binding itself is not purged.
    assert_eq!(
        e.lookup(PlayerIndex::First, 7, LogicalInput::Digital(ButtonId::Other(3))),
        Some(OutputKey::Unicode('a'))
    );
}

#[test]
fn both_players_tables_are_consulted_in_order() {
    let mut e = fresh_engine();
    e.step(DeviceEvent::DeviceAdded { which: 1 });
    let input = LogicalInput::Digital(ButtonId::Other(4));
    e.bindings.bind(PlayerIndex::Second, 1, input, OutputKey::Unicode('y'));
    e.bindings.bind(PlayerIndex::First, 1, input, OutputKey::Unicode('x'));
    let out = e.step(DeviceEvent::ButtonDown { which: 1, button: ButtonId::Other(4) });
    assert_eq!(
        out.events,
        vec![press_event(OutputKey::Unicode('x')), press_event(OutputKey::Unicode('y'))]
    );
}

#[test]
fn unbound_button_of_a_registered_controller_is_a_miss() {
    let mut e = fresh_engine();
    e.step(DeviceEvent::DeviceAdded { which: 1 });
    let out = e.step(DeviceEvent::ButtonDown { which: 1, button: ButtonId::Other(9) });
    assert!(out.events.is_empty());
}

#[test]
fn action_list_is_exposed_for_prompting() {
    let e = fresh_engine();
    assert_eq!(e.action_count(PlayerIndex::First), 7);
    assert_eq!(e.action_count(PlayerIndex::Second), 7);
    assert_eq!(e.action_label(PlayerIndex::First, 0), "Punch");
    assert_eq!(e.action_label(PlayerIndex::First, 6), "Pause");
    assert_eq!(e.action_label(PlayerIndex::Second, 3), "Heavy Slash");
}

#[test]
fn quit_terminates_in_both_modes() {
    let mut e = fresh_engine();
    let out = e.step(DeviceEvent::Quit);
    assert!(out.quit && out.events.is_empty());
    let out = e.step(DeviceEvent::DeviceAdded { which: 1 });
    assert!(!out.quit);
    e.begin_rebind(PlayerIndex::First);
    let out = e.step(DeviceEvent::Quit);
    assert!(out.quit && out.events.is_empty());
}
