//! What holds of the reputation token registry over whole histories.
//!
//! A history is a sequence of operations applied to a state. Initialising,
//! minting and updating a score change the state as the registry's
//! functions of the same name do; reading a credential and verifying
//! ownership leave it as it is.

use vstd::prelude::*;
use crate::events::{Minted, ScoreUpdated};
use crate::identity::Identity;
use crate::reputation_sbt::{SbtError, TokenState};
use crate::score::score_in_range;

verus! {

/// One operation on the registry, with its arguments.
pub enum Op {
    Initialize { admin: Identity },
    Mint { to: Identity, score: u32, profile: Seq<char>, stellar_address: Seq<char>, now: u64 },
    UpdateScore { caller: Identity, account: Identity, new_score: u32 },
    GetReputation { account: Identity },
    VerifyOwnership { account: Identity },
}

/// Whether `op` only reads.
pub open spec fn is_read(op: Op) -> bool {
    op is GetReputation || op is VerifyOwnership
}

/// The state after `op`.
pub open spec fn step(s: TokenState, op: Op) -> TokenState {
    match op {
        Op::Initialize { admin } => s.initialize(admin),
        Op::Mint { to, score, profile, stellar_address, now } => s.mint(
            to,
            score,
            profile,
            stellar_address,
            now,
        ),
        Op::UpdateScore { caller, account, new_score } => s.update_score(
            caller,
            account,
            new_score,
        ),
        Op::GetReputation { .. } => s,
        Op::VerifyOwnership { .. } => s,
    }
}

/// Whether `op` is a mint that succeeds in state `s`.
pub open spec fn mints_one(s: TokenState, op: Op) -> bool {
    match op {
        Op::Mint { to, score, now, .. } => s.mint_result(to, score, now) is Ok,
        _ => false,
    }
}

/// The state after the operations `ops`, in order.
pub open spec fn run(s: TokenState, ops: Seq<Op>) -> TokenState
    decreases ops.len(),
{
    if ops.len() == 0 {
        s
    } else {
        step(run(s, ops.drop_last()), ops.last())
    }
}

/// How many mints succeed while `ops` run from `s`.
pub open spec fn minted(s: TokenState, ops: Seq<Op>) -> nat
    decreases ops.len(),
{
    if ops.len() == 0 {
        0
    } else {
        let before = ops.drop_last();
        minted(s, before) + if mints_one(run(s, before), ops.last()) {
            1nat
        } else {
            0nat
        }
    }
}

/// A freshly deployed registry is well formed.
pub proof fn law_deployed_wf()
    ensures
        TokenState::deployed().wf(),
{
}

/// Every operation keeps the state well formed, whether it succeeds or not.
pub proof fn law_step_wf(s: TokenState, op: Op)
    requires
        s.wf(),
    ensures
        step(s, op).wf(),
{
    let t = step(s, op);
    match op {
        Op::Initialize { .. } => {},
        Op::GetReputation { .. } => {},
        Op::VerifyOwnership { .. } => {},
        Op::Mint { to, score, profile, stellar_address, now } => {
            if s.mint_result(to, score, now) is Ok {
                assert(t.records.dom() =~= s.records.dom().insert(to));
                assert forall|id: Identity| #[trigger] t.records.contains_key(id) implies {
                    &&& score_in_range(t.records[id].score)
                    &&& 1 <= t.records[id].token_id <= t.supply
                } by {
                    if id != to {
                        assert(s.records.contains_key(id));
                    }
                }
                assert forall|a: Identity, b: Identity|
                    #![trigger t.records[a], t.records[b]]
                    t.records.contains_key(a) && t.records.contains_key(b) && a
                        != b implies t.records[a].token_id != t.records[b].token_id by {
                    if a != to {
                        assert(s.records.contains_key(a));
                    }
                    if b != to {
                        assert(s.records.contains_key(b));
                    }
                }
            }
        },
        Op::UpdateScore { caller, account, new_score } => {
            if s.update_score_result(caller, account, new_score) is Ok {
                assert(t.records.dom() =~= s.records.dom());
                assert forall|id: Identity| #[trigger] t.records.contains_key(id) implies {
                    &&& score_in_range(t.records[id].score)
                    &&& 1 <= t.records[id].token_id <= t.supply
                } by {
                    assert(s.records.contains_key(id));
                }
                assert forall|a: Identity, b: Identity|
                    #![trigger t.records[a], t.records[b]]
                    t.records.contains_key(a) && t.records.contains_key(b) && a
                        != b implies t.records[a].token_id != t.records[b].token_id by {
                    assert(s.records.contains_key(a));
                    assert(s.records.contains_key(b));
                }
            }
        },
    }
}

/// Every history keeps the state well formed. In particular every stored
/// score is in range after any history, and no two holders share a token
/// number.
pub proof fn law_run_wf(s: TokenState, ops: Seq<Op>)
    requires
        s.wf(),
    ensures
        run(s, ops).wf(),
        forall|id: Identity| #[trigger]
            run(s, ops).records.contains_key(id) ==> score_in_range(run(s, ops).records[id].score),
    decreases ops.len(),
{
    if ops.len() > 0 {
        law_run_wf(s, ops.drop_last());
        law_step_wf(run(s, ops.drop_last()), ops.last());
    }
}

/// The registry is initialised exactly once: after an initialisation has
/// succeeded, and whatever happened since, the administrator is the one
/// it named, and another initialisation fails with `AlreadyInitialized`
/// and changes nothing.
pub proof fn law_initialize_once(s: TokenState, admin: Identity, ops: Seq<Op>, again: Identity)
    requires
        s.initialize_result() is Ok,
    ensures
        ({
            let later = run(s.initialize(admin), ops);
            &&& later.admin == Some(admin)
            &&& later.initialize_result() == Err::<(), SbtError>(SbtError::AlreadyInitialized)
            &&& later.initialize(again) == later
        }),
    decreases ops.len(),
{
    if ops.len() > 0 {
        law_initialize_once(s, admin, ops.drop_last(), again);
    }
}

/// A credential, once created, stays with its holder through every
/// history, and nothing of it changes but the score.
pub proof fn law_credential_stays(s: TokenState, ops: Seq<Op>, id: Identity)
    requires
        s.records.contains_key(id),
    ensures
        run(s, ops).records.contains_key(id),
        run(s, ops).records[id] == s.records[id].with_score(run(s, ops).records[id].score),
    decreases ops.len(),
{
    if ops.len() > 0 {
        law_credential_stays(s, ops.drop_last(), id);
    }
}

/// An identity holds at most one credential: after a mint has succeeded for
/// it, and whatever happened since, another mint for it is refused and
/// changes nothing. The refusal is `AlreadyMinted`, unless the score asked
/// for is out of range, which is reported first.
pub proof fn law_mint_once(
    s: TokenState,
    id: Identity,
    score: u32,
    profile: Seq<char>,
    stellar_address: Seq<char>,
    now: u64,
    ops: Seq<Op>,
    again: Op,
)
    requires
        s.mint_result(id, score, now) is Ok,
        again matches Op::Mint { to, .. } && to == id,
    ensures
        ({
            let later = run(s.mint(id, score, profile, stellar_address, now), ops);
            &&& later.records.contains_key(id)
            &&& forall|any_score: u32, any_time: u64|
                score_in_range(any_score) ==> #[trigger] later.mint_result(
                    id,
                    any_score,
                    any_time,
                ) == Err::<Minted, SbtError>(SbtError::AlreadyMinted)
            &&& forall|any_score: u32, any_time: u64| #[trigger]
                later.mint_result(id, any_score, any_time) is Err
            &&& step(later, again) == later
        }),
{
    law_credential_stays(s.mint(id, score, profile, stellar_address, now), ops, id);
}

/// A score out of range is always refused with `InvalidScore`, by a mint
/// and by a score update alike, and the state stays as it was.
pub proof fn law_score_out_of_range(
    s: TokenState,
    caller: Identity,
    account: Identity,
    score: u32,
    profile: Seq<char>,
    stellar_address: Seq<char>,
    now: u64,
)
    requires
        !score_in_range(score),
    ensures
        s.mint_result(account, score, now) == Err::<Minted, SbtError>(SbtError::InvalidScore),
        s.mint(account, score, profile, stellar_address, now) == s,
        s.update_score_result(caller, account, score) == Err::<ScoreUpdated, SbtError>(
            SbtError::InvalidScore,
        ),
        s.update_score(caller, account, score) == s,
{
}

/// A successful mint or score update stores a score in range.
pub proof fn law_stored_score_in_range(
    s: TokenState,
    caller: Identity,
    account: Identity,
    score: u32,
    profile: Seq<char>,
    stellar_address: Seq<char>,
    now: u64,
)
    ensures
        s.mint_result(account, score, now) is Ok ==> {
            let t = s.mint(account, score, profile, stellar_address, now);
            t.records.contains_key(account) && t.records[account].score == score
                && score_in_range(score)
        },
        s.update_score_result(caller, account, score) is Ok ==> {
            let t = s.update_score(caller, account, score);
            t.records.contains_key(account) && t.records[account].score == score
                && score_in_range(score)
        },
{
}

/// A holder who is not the administrator may keep or raise their own
/// score, and may not lower it: asking for less fails with `Unauthorized`
/// and leaves the score as it was; asking for as much or more, within the
/// range, succeeds, sets it, and is announced with the score before and
/// the score after.
pub proof fn law_owner_raises_only(s: TokenState, owner: Identity, new_score: u32)
    requires
        s.records.contains_key(owner),
        !s.is_admin(owner),
        score_in_range(new_score),
    ensures
        new_score < s.records[owner].score ==> {
            &&& s.update_score_result(owner, owner, new_score) == Err::<ScoreUpdated, SbtError>(
                SbtError::Unauthorized,
            )
            &&& s.update_score(owner, owner, new_score) == s
        },
        new_score >= s.records[owner].score ==> {
            &&& s.update_score_result(owner, owner, new_score) == Ok::<ScoreUpdated, SbtError>(
                ScoreUpdated { account: owner, old_score: s.records[owner].score, new_score },
            )
            &&& s.update_score(owner, owner, new_score).records == s.records.insert(
                owner,
                s.records[owner].with_score(new_score),
            )
            &&& s.update_score(owner, owner, new_score).records[owner].score == new_score
        },
{
}

/// The administrator may set the score of any holder to any value in
/// range, lower ones included.
pub proof fn law_admin_overrides(
    s: TokenState,
    admin: Identity,
    account: Identity,
    new_score: u32,
)
    requires
        s.is_admin(admin),
        s.records.contains_key(account),
        score_in_range(new_score),
    ensures
        s.update_score_result(admin, account, new_score) == Ok::<ScoreUpdated, SbtError>(
            ScoreUpdated { account, old_score: s.records[account].score, new_score },
        ),
        s.update_score(admin, account, new_score).records == s.records.insert(
            account,
            s.records[account].with_score(new_score),
        ),
        s.update_score(admin, account, new_score).records[account].score == new_score,
{
}

/// Someone who is neither the holder nor the administrator cannot change a
/// holder's score.
pub proof fn law_stranger_refused(
    s: TokenState,
    caller: Identity,
    account: Identity,
    new_score: u32,
)
    requires
        s.records.contains_key(account),
        caller != account,
        !s.is_admin(caller),
        score_in_range(new_score),
    ensures
        s.update_score_result(caller, account, new_score) == Err::<ScoreUpdated, SbtError>(
            SbtError::Unauthorized,
        ),
        s.update_score(caller, account, new_score) == s,
{
}

/// The counter counts the successful mints and never goes down: after any
/// history it has grown by the number of mints that succeeded, and a mint
/// that succeeds next returns the number that follows.
pub proof fn law_counter_counts_mints(s: TokenState, ops: Seq<Op>)
    ensures
        run(s, ops).supply == s.supply + minted(s, ops),
        run(s, ops).supply >= s.supply,
        forall|to: Identity, score: u32, now: u64|
            (#[trigger] run(s, ops).mint_result(to, score, now)) matches Ok(notice)
                ==> notice.token_id == s.supply + minted(s, ops) + 1,
    decreases ops.len(),
{
    if ops.len() > 0 {
        law_counter_counts_mints(s, ops.drop_last());
    }
}

/// From deployment on, the counter is the number of successful mints, and
/// the mint that succeeds after `n` others returns `n + 1`.
pub proof fn law_counter_from_deployment(ops: Seq<Op>)
    ensures
        run(TokenState::deployed(), ops).supply == minted(TokenState::deployed(), ops),
        forall|to: Identity, score: u32, now: u64|
            (#[trigger] run(TokenState::deployed(), ops).mint_result(to, score, now)) matches Ok(
                notice,
            ) ==> notice.token_id == minted(TokenState::deployed(), ops) + 1,
{
    law_counter_counts_mints(TokenState::deployed(), ops);
}

/// Reading changes nothing: after any number of reads the state is as it
/// was, so every read gives the answer it gave before.
pub proof fn law_reads_change_nothing(s: TokenState, reads: Seq<Op>)
    requires
        forall|i: int| 0 <= i < reads.len() ==> is_read(#[trigger] reads[i]),
    ensures
        run(s, reads) == s,
        forall|account: Identity| #[trigger]
            run(s, reads).reputation_of(account) == s.reputation_of(account),
        forall|account: Identity| #[trigger] run(s, reads).owns(account) == s.owns(account),
    decreases reads.len(),
{
    if reads.len() > 0 {
        law_reads_change_nothing(s, reads.drop_last());
        assert(is_read(reads[reads.len() - 1]));
    }
}

/// Token numbers are given in increasing order: a new credential gets a
/// number above that of every credential that exists.
pub proof fn law_new_token_is_largest(
    s: TokenState,
    to: Identity,
    score: u32,
    now: u64,
    id: Identity,
)
    requires
        s.wf(),
        s.mint_result(to, score, now) is Ok,
        s.records.contains_key(id),
    ensures
        s.records[id].token_id < s.mint_result(to, score, now)->Ok_0.token_id,
{
}

} // verus!
