//! The score range and the rule for changing a score.

use vstd::prelude::*;

verus! {

/// The highest reputation score.
pub const MAX_SCORE: u32 = 1000;

/// Whether `score` lies in the accepted range, `0..=MAX_SCORE`.
pub open spec fn score_in_range(score: u32) -> bool {
    score <= MAX_SCORE
}

/// Whether a holder's score may go from `current` to `new_score`: the
/// administrator may set any score, anyone else may only keep or raise it.
pub open spec fn change_permitted(by_admin: bool, current: u32, new_score: u32) -> bool {
    by_admin || new_score >= current
}

/// Tests whether `score` lies in the accepted range.
pub fn is_valid_score(score: u32) -> (ok: bool)
    ensures
        ok == score_in_range(score),
{
    score <= MAX_SCORE
}

/// Tests whether a holder's score may go from `current` to `new_score`.
pub fn may_change(by_admin: bool, current: u32, new_score: u32) -> (ok: bool)
    ensures
        ok == change_permitted(by_admin, current, new_score),
{
    by_admin || new_score >= current
}

} // verus!
