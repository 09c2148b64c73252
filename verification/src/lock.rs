//! Following the screen-lock state: which readings of the session's lock hint
//! change the reminder's locked flag.

use vstd::prelude::*;

verus! {

/// What a reading of the lock hint means: an unreadable one counts as
/// unlocked.
pub open spec fn reading_locked(reading: Option<bool>) -> bool {
    match reading {
        Some(locked) => locked,
        None => false,
    }
}

/// What a state `last` becomes when the reported change (if any) is applied.
pub open spec fn applied(last: bool, change: Option<bool>) -> bool {
    match change {
        Some(locked) => locked,
        None => last,
    }
}

/// What `lock_transition` reports for `last` and `reading`.
pub open spec fn transition(last: bool, reading: Option<bool>) -> Option<bool> {
    if reading_locked(reading) == last {
        None
    } else {
        Some(reading_locked(reading))
    }
}

/// Given the lock state last applied and a new reading of the lock hint,
/// the state to apply now, or `None` when the reading repeats the last one
/// (the change stream replays the current value first).
pub fn lock_transition(last: bool, reading: Option<bool>) -> (r: Option<bool>)
    ensures
        r == transition(last, reading),
{
    let locked = match reading {
        Some(locked) => locked,
        None => false,
    };
    if locked == last {
        None
    } else {
        Some(locked)
    }
}

/// Applying what `lock_transition` reports keeps the locked flag equal to the
/// latest reading, and a change is only ever reported as a real change.
pub proof fn lemma_transition_tracks_reading(last: bool, reading: Option<bool>)
    ensures
        applied(last, transition(last, reading)) == reading_locked(reading),
        transition(last, reading) matches Some(locked) ==> locked != last,
        transition(reading_locked(reading), reading) is None,
{
}

} // verus!
