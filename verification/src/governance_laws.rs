//! What holds of the governance token registry over whole histories.
//!
//! A history is a sequence of operations applied to a state. Minting and
//! updating a score change the state as the registry's functions of the
//! same name do; reading a credential and verifying ownership leave it as
//! it is.

use vstd::prelude::*;
use crate::governance_sbt::{Error, SbtState};
use crate::identity::Identity;
use crate::score::score_in_range;

verus! {

/// One operation on the registry, with its arguments.
pub enum Op {
    Mint { caller: Identity, score: u32, profile: Seq<char>, stellar_address: Seq<char>, now: u64 },
    UpdateScore { caller: Identity, account: Identity, new_score: u32 },
    GetReputation { account: Identity },
    VerifyOwnership { account: Identity },
}

/// Whether `op` only reads.
pub open spec fn is_read(op: Op) -> bool {
    op is GetReputation || op is VerifyOwnership
}

/// The state after `op`.
pub open spec fn step(s: SbtState, op: Op) -> SbtState {
    match op {
        Op::Mint { caller, score, profile, stellar_address, now } => s.mint(
            caller,
            score,
            profile,
            stellar_address,
            now,
        ),
        Op::UpdateScore { caller, account, new_score } => s.update_score(
            caller,
            account,
            new_score,
        ),
        Op::GetReputation { .. } => s,
        Op::VerifyOwnership { .. } => s,
    }
}

/// Whether `op` is a mint that succeeds in state `s`.
pub open spec fn mints_one(s: SbtState, op: Op) -> bool {
    match op {
        Op::Mint { caller, score, .. } => s.mint_result(caller, score) is Ok,
        _ => false,
    }
}

/// The state after the operations `ops`, in order.
pub open spec fn run(s: SbtState, ops: Seq<Op>) -> SbtState
    decreases ops.len(),
{
    if ops.len() == 0 {
        s
    } else {
        step(run(s, ops.drop_last()), ops.last())
    }
}

/// How many mints succeed while `ops` run from `s`.
pub open spec fn minted(s: SbtState, ops: Seq<Op>) -> nat
    decreases ops.len(),
{
    if ops.len() == 0 {
        0
    } else {
        let before = ops.drop_last();
        minted(s, before) + if mints_one(run(s, before), ops.last()) {
            1nat
        } else {
            0nat
        }
    }
}

/// A freshly deployed registry is well formed.
pub proof fn law_init_wf(admin: Identity)
    ensures
        SbtState::init(admin).wf(),
{
}

/// Every operation keeps the state well formed, whether it succeeds or not.
pub proof fn law_step_wf(s: SbtState, op: Op)
    requires
        s.wf(),
    ensures
        step(s, op).wf(),
{
    let t = step(s, op);
    match op {
        Op::Mint { caller, score, profile, stellar_address, now } => {
            if s.mint_result(caller, score) is Ok {
                assert(t.records.dom() =~= s.records.dom().insert(caller));
                assert forall|id: Identity| #[trigger] t.records.contains_key(id) implies {
                    &&& score_in_range(t.records[id].score)
                    &&& 1 <= t.records[id].token_id <= t.total_supply
                } by {
                    if id != caller {
                        assert(s.records.contains_key(id));
                    }
                }
                assert forall|a: Identity, b: Identity|
                    #![trigger t.records[a], t.records[b]]
                    t.records.contains_key(a) && t.records.contains_key(b) && a
                        != b implies t.records[a].token_id != t.records[b].token_id by {
                    if a != caller {
                        assert(s.records.contains_key(a));
                    }
                    if b != caller {
                        assert(s.records.contains_key(b));
                    }
                }
            }
        },
        Op::GetReputation { .. } => {},
        Op::VerifyOwnership { .. } => {},
        Op::UpdateScore { caller, account, new_score } => {
            if s.update_score_result(caller, account, new_score) is Ok {
                assert(t.records.dom() =~= s.records.dom());
                assert forall|id: Identity| #[trigger] t.records.contains_key(id) implies {
                    &&& score_in_range(t.records[id].score)
                    &&& 1 <= t.records[id].token_id <= t.total_supply
                } by {
                    assert(s.records.contains_key(id));
                }
                assert forall|a: Identity, b: Identity|
                    #![trigger t.records[a], t.records[b]]
                    t.records.contains_key(a) && t.records.contains_key(b) && a
                        != b implies t.records[a].token_id != t.records[b].token_id by {
                    assert(s.records.contains_key(a));
                    assert(s.records.contains_key(b));
                }
            }
        },
    }
}

/// Every history keeps the state well formed. In particular every stored
/// score is in range after any history, and no two holders share a token
/// number.
pub proof fn law_run_wf(s: SbtState, ops: Seq<Op>)
    requires
        s.wf(),
    ensures
        run(s, ops).wf(),
        forall|id: Identity| #[trigger]
            run(s, ops).records.contains_key(id) ==> score_in_range(run(s, ops).records[id].score),
    decreases ops.len(),
{
    if ops.len() > 0 {
        law_run_wf(s, ops.drop_last());
        law_step_wf(run(s, ops.drop_last()), ops.last());
    }
}

/// A credential, once created, stays with its holder through every
/// history, and nothing of it changes but the score.
pub proof fn law_credential_stays(s: SbtState, ops: Seq<Op>, id: Identity)
    requires
        s.records.contains_key(id),
    ensures
        run(s, ops).records.contains_key(id),
        run(s, ops).records[id] == s.records[id].with_score(run(s, ops).records[id].score),
        run(s, ops).admin == s.admin,
    decreases ops.len(),
{
    if ops.len() > 0 {
        law_credential_stays(s, ops.drop_last(), id);
    }
}

/// An identity holds at most one credential: after a mint has succeeded for
/// it, and whatever happened since, another mint for it is refused with
/// `AlreadyMinted` and changes nothing.
pub proof fn law_mint_once(
    s: SbtState,
    id: Identity,
    score: u32,
    profile: Seq<char>,
    stellar_address: Seq<char>,
    now: u64,
    ops: Seq<Op>,
    again: Op,
)
    requires
        s.mint_result(id, score) is Ok,
        again matches Op::Mint { caller, .. } && caller == id,
    ensures
        ({
            let later = run(s.mint(id, score, profile, stellar_address, now), ops);
            &&& later.records.contains_key(id)
            &&& forall|any_score: u32| #[trigger]
                later.mint_result(id, any_score) == Err::<u64, Error>(Error::AlreadyMinted)
            &&& step(later, again) == later
        }),
{
    law_credential_stays(s.mint(id, score, profile, stellar_address, now), ops, id);
}

/// A score out of range is always refused, and the state stays as it was.
/// A score update that asks for one fails with `InvalidScore`; so does a
/// mint, unless the caller already holds a credential, which is reported
/// first.
pub proof fn law_score_out_of_range(
    s: SbtState,
    caller: Identity,
    account: Identity,
    score: u32,
    profile: Seq<char>,
    stellar_address: Seq<char>,
    now: u64,
)
    requires
        !score_in_range(score),
    ensures
        s.mint_result(caller, score) is Err,
        !s.records.contains_key(caller) ==> s.mint_result(caller, score) == Err::<u64, Error>(
            Error::InvalidScore,
        ),
        s.mint(caller, score, profile, stellar_address, now) == s,
        s.update_score_result(caller, account, score) == Err::<(), Error>(Error::InvalidScore),
        s.update_score(caller, account, score) == s,
{
}

/// A successful mint or score update stores a score in range.
pub proof fn law_stored_score_in_range(
    s: SbtState,
    caller: Identity,
    account: Identity,
    score: u32,
    profile: Seq<char>,
    stellar_address: Seq<char>,
    now: u64,
)
    ensures
        s.mint_result(caller, score) is Ok ==> {
            let t = s.mint(caller, score, profile, stellar_address, now);
            t.records.contains_key(caller) && t.records[caller].score == score && score_in_range(
                score,
            )
        },
        s.update_score_result(caller, account, score) is Ok ==> {
            let t = s.update_score(caller, account, score);
            t.records.contains_key(account) && t.records[account].score == score
                && score_in_range(score)
        },
{
}

/// A holder who is not the administrator may keep or raise their own
/// score, and may not lower it: asking for less fails with `Unauthorized`
/// and leaves the score as it was; asking for as much or more, within the
/// range, succeeds and sets it.
pub proof fn law_owner_raises_only(s: SbtState, owner: Identity, new_score: u32)
    requires
        s.records.contains_key(owner),
        owner != s.admin,
        score_in_range(new_score),
    ensures
        new_score < s.records[owner].score ==> {
            &&& s.update_score_result(owner, owner, new_score) == Err::<(), Error>(
                Error::Unauthorized,
            )
            &&& s.update_score(owner, owner, new_score) == s
        },
        new_score >= s.records[owner].score ==> {
            &&& s.update_score_result(owner, owner, new_score) == Ok::<(), Error>(())
            &&& s.update_score(owner, owner, new_score).records == s.records.insert(
                owner,
                s.records[owner].with_score(new_score),
            )
            &&& s.update_score(owner, owner, new_score).records[owner].score == new_score
        },
{
}

/// The administrator may set the score of any holder to any value in
/// range, lower ones included.
pub proof fn law_admin_overrides(s: SbtState, account: Identity, new_score: u32)
    requires
        s.records.contains_key(account),
        score_in_range(new_score),
    ensures
        s.update_score_result(s.admin, account, new_score) == Ok::<(), Error>(()),
        s.update_score(s.admin, account, new_score).records == s.records.insert(
            account,
            s.records[account].with_score(new_score),
        ),
        s.update_score(s.admin, account, new_score).records[account].score == new_score,
{
}

/// Someone who is neither the holder nor the administrator cannot change a
/// holder's score.
pub proof fn law_stranger_refused(
    s: SbtState,
    caller: Identity,
    account: Identity,
    new_score: u32,
)
    requires
        s.records.contains_key(account),
        caller != account,
        caller != s.admin,
        score_in_range(new_score),
    ensures
        s.update_score_result(caller, account, new_score) == Err::<(), Error>(
            Error::Unauthorized,
        ),
        s.update_score(caller, account, new_score) == s,
{
}

/// The counter counts the successful mints and never goes down: after any
/// history it has grown by the number of mints that succeeded, and a mint
/// that succeeds next returns the number that follows.
pub proof fn law_counter_counts_mints(s: SbtState, ops: Seq<Op>)
    ensures
        run(s, ops).total_supply == s.total_supply + minted(s, ops),
        run(s, ops).total_supply >= s.total_supply,
        forall|caller: Identity, score: u32|
            (#[trigger] run(s, ops).mint_result(caller, score)) matches Ok(token_id)
                ==> token_id == s.total_supply + minted(s, ops) + 1,
    decreases ops.len(),
{
    if ops.len() > 0 {
        law_counter_counts_mints(s, ops.drop_last());
    }
}

/// From deployment on, the counter is the number of successful mints, and
/// the mint that succeeds after `n` others returns `n + 1`.
pub proof fn law_counter_from_deployment(admin: Identity, ops: Seq<Op>)
    ensures
        run(SbtState::init(admin), ops).total_supply == minted(SbtState::init(admin), ops),
        forall|caller: Identity, score: u32|
            (#[trigger] run(SbtState::init(admin), ops).mint_result(caller, score)) matches Ok(
                token_id,
            ) ==> token_id == minted(SbtState::init(admin), ops) + 1,
{
    law_counter_counts_mints(SbtState::init(admin), ops);
}

/// Reading changes nothing: after any number of reads the state is as it
/// was, so every read gives the answer it gave before.
pub proof fn law_reads_change_nothing(s: SbtState, reads: Seq<Op>)
    requires
        forall|i: int| 0 <= i < reads.len() ==> is_read(#[trigger] reads[i]),
    ensures
        run(s, reads) == s,
        forall|account: Identity| #[trigger]
            run(s, reads).reputation_of(account) == s.reputation_of(account),
        forall|account: Identity| #[trigger] run(s, reads).owns(account) == s.owns(account),
    decreases reads.len(),
{
    if reads.len() > 0 {
        law_reads_change_nothing(s, reads.drop_last());
        assert(is_read(reads[reads.len() - 1]));
    }
}

/// Token numbers are given in increasing order: a new credential gets a
/// number above that of every credential that exists.
pub proof fn law_new_token_is_largest(s: SbtState, caller: Identity, score: u32, id: Identity)
    requires
        s.wf(),
        s.mint_result(caller, score) is Ok,
        s.records.contains_key(id),
    ensures
        s.records[id].token_id < s.mint_result(caller, score)->Ok_0,
{
}

} // verus!
