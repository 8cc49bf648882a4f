//! The fullscreen oracle: which external query to run and how to read its
//! answer.
//!
//! The query itself is a shell command spawned outside the library; here
//! stand the command text for each supported session kind and the verified
//! interpretation of its exit status as "the focused window is fullscreen",
//! and of that in turn as the playback gate.

use vstd::prelude::*;

verus! {

/// The windowing session kind, deciding which external query answers
/// whether the focused window is fullscreen.
#[derive(Clone, Copy, PartialEq, Eq, Structural, Debug)]
pub enum SessionType {
    X11,
    Hyprland,
}

/// The shell text of the fullscreen query for each session kind.
pub open spec fn spec_oracle_command(session: SessionType) -> Seq<char> {
    match session {
        SessionType::X11 => "xprop -id `xprop -root _NET_ACTIVE_WINDOW | grep -oP 'window id # \\K.*$'` | grep _NET_WM_STATE_FULLSCREEN >/dev/null"@,
        SessionType::Hyprland => r#"[ `hyprctl activewindow -j | jq -r '.size | "\(.[0])x\(.[1])"'` != `hyprctl monitors -j | jq -r ".[] | select(.id == \`hyprctl activewindow -j | jq '.monitor'\`) | \"\(.width)x\(.height)\""` ]"#@,
    }
}

/// The shell command whose exit status answers whether the focused window
/// is fullscreen for this session kind.
pub fn oracle_command(session: SessionType) -> (cmd: &'static str)
    ensures
        cmd@ == spec_oracle_command(session),
{
    match session {
        SessionType::X11 => "xprop -id `xprop -root _NET_ACTIVE_WINDOW | grep -oP 'window id # \\K.*$'` | grep _NET_WM_STATE_FULLSCREEN >/dev/null",
        SessionType::Hyprland => r#"[ `hyprctl activewindow -j | jq -r '.size | "\(.[0])x\(.[1])"'` != `hyprctl monitors -j | jq -r ".[] | select(.id == \`hyprctl activewindow -j | jq '.monitor'\`) | \"\(.width)x\(.height)\""` ]"#,
    }
}

/// How each session's command encodes its answer in the exit status: the
/// X11 query greps for the fullscreen window state, so success means
/// fullscreen; the Hyprland query tests that the focused window's size
/// differs from its monitor's, so success means not fullscreen.
pub open spec fn spec_fullscreen_of_status(session: SessionType, success: bool) -> bool {
    match session {
        SessionType::X11 => success,
        SessionType::Hyprland => !success,
    }
}

/// Read the oracle command's exit status as the fullscreen answer.
pub fn fullscreen_from_status(session: SessionType, success: bool) -> (fullscreen: bool)
    ensures
        fullscreen == spec_fullscreen_of_status(session, success),
{
    match session {
        SessionType::X11 => success,
        SessionType::Hyprland => !success,
    }
}

/// The playback gate the poller publishes: feedback plays exactly while
/// the focused window is not fullscreen.
pub fn gate_from_fullscreen(fullscreen: bool) -> (gate: bool)
    ensures
        gate == !fullscreen,
{
    !fullscreen
}

} // verus!
