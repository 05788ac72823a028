//! Decisions the plugin takes once per simulation frame and when sending a
//! chat line to a player; the application performs them.

use crate::clients::{client_at, ClientArray};
use crate::cstr::{c_char_text, c_string_bytes, c_string_of, level_name_is};
use vstd::prelude::*;
use vstd::string::StringSliceAdditionalSpecFns;

verus! {

/// What the forced-map toggle asks of this frame.
#[derive(Clone, Copy, Debug, PartialEq, Eq, Structural)]
pub enum FrameAction {
    /// The toggle is off or absent.
    Nothing,
    /// The toggle is on and another level runs: queue `map mp_box`.
    ChangeMap,
    /// The toggle is on and `mp_box` runs already: switch the toggle off.
    ClearToggle,
}

/// Decides the frame's action from the toggle's value (`None` before it is
/// registered) and the host's current level name buffer.
pub fn force_box_action(toggle: Option<i32>, level_name: &[i8]) -> (r: FrameAction)
    ensures
        toggle != Some(1i32) ==> r == FrameAction::Nothing,
        toggle == Some(1i32) && c_char_text(level_name@) == "mp_box".spec_bytes() ==> r
            == FrameAction::ClearToggle,
        toggle == Some(1i32) && c_char_text(level_name@) != "mp_box".spec_bytes() ==> r
            == FrameAction::ChangeMap,
{
    match toggle {
        Some(1i32) => {
            if level_name_is(level_name, "mp_box") {
                FrameAction::ClearToggle
            } else {
                FrameAction::ChangeMap
            }
        },
        _ => FrameAction::Nothing,
    }
}

/// The console command that changes to the forced level, as a C string.
pub fn change_map_command() -> (r: Vec<u8>)
    ensures
        c_string_of("map mp_box".spec_bytes()) == Some(r@),
{
    match c_string_bytes("map mp_box") {
        Some(v) => v,
        None => {
            proof {
                let s = "map mp_box";
                reveal_strlit("map mp_box");
                assert(s@.len() == 10);
                assert(vstd::string::is_ascii(s));
                vstd::string::is_ascii_spec_bytes(s);
                assert(!s.spec_bytes().contains(0u8));
            }
            Vec::new()
        },
    }
}

/// Where a chat line to player `player_index` goes and what it carries: the
/// player's client, read through the checked accessor of the client array,
/// and the message as a C string. `None` when the index is 0 or past the
/// capacity, when the player's slot is empty, or when the message holds a
/// zero byte; the client array is not touched past its capacity.
pub fn client_print_target(clients: &ClientArray, player_index: usize, msg: &str) -> (r: Option<
    (u64, Vec<u8>),
>)
    ensures
        player_index == 0 || player_index > clients@.len() ==> r is None,
        1 <= player_index <= clients@.len() && clients@[player_index - 1] == 0 ==> r is None,
        r is Some <==> client_at(clients@, player_index as int) is Some && c_string_of(
            msg.spec_bytes(),
        ) is Some,
        r matches Some(t) ==> client_at(clients@, player_index as int) == Some(t.0) && c_string_of(
            msg.spec_bytes(),
        ) == Some(t.1@),
{
    let client = match clients.client_by_index(player_index) {
        Some(a) => a,
        None => return None,
    };
    match c_string_bytes(msg) {
        Some(m) => Some((client, m)),
        None => None,
    }
}

} // verus!
