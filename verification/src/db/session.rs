//! Bookkeeping of a practice session.

use vstd::prelude::*;

verus! {

/// The duration recorded for a session after an activity: the seconds
/// elapsed since the session started, never negative, or the duration stored
/// before when the start time could not be read (`elapsed` is `None`).
pub fn session_duration_seconds(elapsed: Option<i64>, stored: i64) -> (r: i64)
    ensures
        r == (match elapsed {
            Some(e) => if e < 0 { 0 } else { e },
            None => stored,
        }),
{
    match elapsed {
        Some(e) => if e < 0 { 0 } else { e },
        None => stored,
    }
}

} // verus!
