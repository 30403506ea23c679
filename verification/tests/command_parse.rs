use padmap::command::parse_player_select;
use padmap::input::PlayerIndex;

#[test]
fn one_selects_the_first_player() {
    assert_eq!(parse_player_select("1"), Some(PlayerIndex::First));
}

#[test]
fn two_selects_the_second_player() {
    assert_eq!(parse_player_select("2"), Some(PlayerIndex::Second));
}

#[test]
fn anything_else_selects_nobody() {
    assert_eq!(parse_player_select(""), None);
    assert_eq!(parse_player_select("3"), None);
    assert_eq!(parse_player_select("12"), None);
    assert_eq!(parse_player_select("player"), None);
}
