use padmap::bindings::BindingTable;
use padmap::input::{AxisChannel, ButtonId, LogicalInput, OutputKey, PlayerIndex};

#[test]
fn bind_then_lookup_returns_key() {
    let mut t = BindingTable::new();
    let input = LogicalInput::Digital(ButtonId::Other(5));
    t.bind(PlayerIndex::First, 3, input, OutputKey::Unicode('a'));
    assert_eq!(t.lookup(PlayerIndex::First, 3, input), Some(OutputKey::Unicode('a')));
    assert_eq!(t.lookup(PlayerIndex::Second, 3, input), None);
    assert_eq!(t.lookup(PlayerIndex::First, 4, input), None);
}

#[test]
fn rebinding_same_triple_replaces_key() {
    let mut t = BindingTable::new();
    let input = LogicalInput::Analog(AxisChannel::TriggerRight);
    t.bind(PlayerIndex::First, 1, input, OutputKey::Unicode('a'));
    t.bind(PlayerIndex::First, 1, input, OutputKey::Unicode('z'));
    assert_eq!(t.lookup(PlayerIndex::First, 1, input), Some(OutputKey::Unicode('z')));
}

#[test]
fn lookup_distinguishes_analog_and_digital() {
    let mut t = BindingTable::new();
    t.bind(
        PlayerIndex::First,
        1,
        LogicalInput::Analog(AxisChannel::TriggerLeft),
        OutputKey::Unicode('a'),
    );
    assert_eq!(t.lookup(PlayerIndex::First, 1, LogicalInput::Digital(ButtonId::Other(0))), None);
    assert_eq!(
        t.lookup(PlayerIndex::First, 1, LogicalInput::Analog(AxisChannel::TriggerRight)),
        None
    );
}

#[test]
fn clear_removes_only_that_player() {
    let mut t = BindingTable::new();
    let input_a = LogicalInput::Digital(ButtonId::DPadUp);
    let input_b = LogicalInput::Digital(ButtonId::Other(9));
    t.bind(PlayerIndex::First, 1, input_a, OutputKey::Unicode('a'));
    t.bind(PlayerIndex::First, 2, input_b, OutputKey::Unicode('b'));
    t.bind(PlayerIndex::Second, 1, input_a, OutputKey::Unicode('c'));
    t.clear(PlayerIndex::First);
    assert_eq!(t.lookup(PlayerIndex::First, 1, input_a), None);
    assert_eq!(t.lookup(PlayerIndex::First, 2, input_b), None);
    assert_eq!(t.lookup(PlayerIndex::Second, 1, input_a), Some(OutputKey::Unicode('c')));
}

#[test]
fn same_input_may_be_bound_for_both_players() {
    let mut t = BindingTable::new();
    let input = LogicalInput::Digital(ButtonId::Other(2));
    t.bind(PlayerIndex::First, 1, input, OutputKey::Unicode('x'));
    t.bind(PlayerIndex::Second, 1, input, OutputKey::Unicode('y'));
    assert_eq!(t.lookup(PlayerIndex::First, 1, input), Some(OutputKey::Unicode('x')));
    assert_eq!(t.lookup(PlayerIndex::Second, 1, input), Some(OutputKey::Unicode('y')));
}
