//! The player-select command carried by the command channel: a trimmed
//! console line choosing which player to rebind.

use vstd::prelude::*;
use vstd::string::StrSliceExecFns;

use crate::input::PlayerIndex;

verus! {

/// The player a trimmed command line selects: exactly "1" or "2". Any other
/// line selects nobody, and the caller re-prompts.
pub open spec fn spec_parse_player_select(s: Seq<char>) -> Option<PlayerIndex> {
    if s.len() == 1 && s[0] == '1' {
        Some(PlayerIndex::First)
    } else if s.len() == 1 && s[0] == '2' {
        Some(PlayerIndex::Second)
    } else {
        None
    }
}

/// Parses a trimmed command line into the player it selects.
pub fn parse_player_select(line: &str) -> (r: Option<PlayerIndex>)
    ensures
        r == spec_parse_player_select(line@),
{
    if line.unicode_len() == 1 {
        let c = line.get_char(0);
        if c == '1' {
            Some(PlayerIndex::First)
        } else if c == '2' {
            Some(PlayerIndex::Second)
        } else {
            None
        }
    } else {
        None
    }
}

} // verus!
