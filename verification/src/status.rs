//! The status line.  Every message the controller can set is catalogued
//! here as a spec-level sequence, with a verified builder for each, so the
//! controller's contracts can pin the exact text.

use crate::text::{dec_rep, usize_to_string};
use vstd::prelude::*;

verus! {

/// Greeting when the first scan found something to play.
pub open spec fn ready_status() -> Seq<char> {
    "Ready - Use ↑/↓ to navigate, Enter to play (auto-advances to next song), 'q' to quit"@
}

/// Greeting when the first scan found nothing.
pub open spec fn no_files_found_status() -> Seq<char> {
    "No music files found - Press 'r' to refresh or 'q' to quit"@
}

/// Asked to play while the library is empty: an expected state, not an
/// error.
pub open spec fn no_files_to_play_status() -> Seq<char> {
    "No music files available to play"@
}

/// A track started.
pub open spec fn playing_status(name: Seq<char>) -> Seq<char> {
    "♪ Playing: "@ + name
}

/// The backend could not open or decode the chosen file.
pub open spec fn error_status(e: Seq<char>) -> Seq<char> {
    "Error playing file: "@ + e
}

/// Playback stopped on request.
pub open spec fn stopped_status() -> Seq<char> {
    "Stopped"@
}

/// Playback paused.
pub open spec fn paused_status() -> Seq<char> {
    "Paused"@
}

/// Advancing wrapped from the last track back to the first: a deliberate
/// signal, distinct from the normal advance message.
pub open spec fn looped_status(name: Seq<char>) -> Seq<char> {
    "♪ Looped to beginning - Playing: "@ + name
}

/// The volume changed to `v` percent.
pub open spec fn volume_status(v: int) -> Seq<char> {
    "Volume: "@ + dec_rep(v) + "%"@
}

/// A refresh found `n` tracks.
pub open spec fn refreshed_status(n: int) -> Seq<char> {
    "Refreshed - Found "@ + dec_rep(n) + " music files"@
}

/// A refresh found nothing.
pub open spec fn refresh_empty_status() -> Seq<char> {
    "No music files found in directory"@
}

/// Builds `playing_status` for a concrete name.
pub fn make_playing_status(name: &str) -> (s: String)
    ensures
        s@ == playing_status(name@),
{
    let mut s = "♪ Playing: ".to_owned();
    s.append(name);
    s
}

/// Builds `error_status` for a concrete error text.
pub fn make_error_status(e: &str) -> (s: String)
    ensures
        s@ == error_status(e@),
{
    let mut s = "Error playing file: ".to_owned();
    s.append(e);
    s
}

/// Builds `looped_status` for a concrete name.
pub fn make_looped_status(name: &str) -> (s: String)
    ensures
        s@ == looped_status(name@),
{
    let mut s = "♪ Looped to beginning - Playing: ".to_owned();
    s.append(name);
    s
}

/// Builds `volume_status` for a concrete percentage.
pub fn make_volume_status(v: u8) -> (s: String)
    ensures
        s@ == volume_status(v as int),
{
    let mut s = "Volume: ".to_owned();
    s.append(usize_to_string(v as usize).as_str());
    s.append("%");
    proof {
        assert(s@ =~= volume_status(v as int));
    }
    s
}

/// Builds `refreshed_status` for a concrete count.
pub fn make_refreshed_status(n: usize) -> (s: String)
    ensures
        s@ == refreshed_status(n as int),
{
    let mut s = "Refreshed - Found ".to_owned();
    s.append(usize_to_string(n).as_str());
    s.append(" music files");
    proof {
        assert(s@ =~= refreshed_status(n as int));
    }
    s
}

/// The loop-back message never coincides with a normal playing message,
/// whatever the two names are: the listener can always tell a wrap-around
/// from a plain advance.
pub proof fn lemma_loopback_status_distinct(a: Seq<char>, b: Seq<char>)
    ensures
        looped_status(a) != playing_status(b),
{
    reveal_strlit("♪ Looped to beginning - Playing: ");
    reveal_strlit("♪ Playing: ");
    let p1 = "♪ Looped to beginning - Playing: "@;
    let p2 = "♪ Playing: "@;
    if looped_status(a) == playing_status(b) {
        assert((p1 + a)[2] == (p2 + b)[2]);
        assert(p1[2] == 'L');
        assert(p2[2] == 'P');
        assert(false);
    }
}

} // verus!
