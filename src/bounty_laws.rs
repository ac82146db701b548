use vstd::prelude::*;
use crate::bounty::{
    escrow_info, init_outcome, lock_outcome, refund_outcome, release_outcome, EscrowLedger,
};
use crate::types::{Address, Error, Escrow, EscrowStatus};

verus! {

/// One call made on the contract, with its arguments.
pub enum Action {
    Init { admin: Address, token: Address },
    Lock { depositor: Address, bounty_id: u64, amount: i128, deadline: u64, now: u64 },
    Release { bounty_id: u64, contributor: Address, caller: Address },
    Refund { bounty_id: u64, now: u64 },
    Complete,
}

/// Whether `a` succeeds from state `s`.
pub open spec fn succeeds(s: EscrowLedger, a: Action) -> bool {
    match a {
        Action::Init { admin, token } => init_outcome(s, admin, token) is Ok,
        Action::Lock { depositor, bounty_id, amount, deadline, now } => lock_outcome(
            s,
            depositor,
            bounty_id,
            amount,
            deadline,
            now,
        ) is Ok,
        Action::Release { bounty_id, contributor, caller } => release_outcome(
            s,
            bounty_id,
            contributor,
            caller,
        ) is Ok,
        Action::Refund { bounty_id, now } => refund_outcome(s, bounty_id, now) is Ok,
        Action::Complete => true,
    }
}

/// The state after `a` from state `s`: a failed call leaves the state as it was.
pub open spec fn apply(s: EscrowLedger, a: Action) -> EscrowLedger {
    match a {
        Action::Init { admin, token } => match init_outcome(s, admin, token) {
            Ok(t) => t,
            Err(_) => s,
        },
        Action::Lock { depositor, bounty_id, amount, deadline, now } => match lock_outcome(
            s,
            depositor,
            bounty_id,
            amount,
            deadline,
            now,
        ) {
            Ok((t, _)) => t,
            Err(_) => s,
        },
        Action::Release { bounty_id, contributor, caller } => match release_outcome(
            s,
            bounty_id,
            contributor,
            caller,
        ) {
            Ok((t, _)) => t,
            Err(_) => s,
        },
        Action::Refund { bounty_id, now } => match refund_outcome(s, bounty_id, now) {
            Ok((t, _)) => t,
            Err(_) => s,
        },
        Action::Complete => s.settled(),
    }
}

/// The state after the calls `acts`, in order, from state `s`.
pub open spec fn run(s: EscrowLedger, acts: Seq<Action>) -> EscrowLedger
    decreases acts.len(),
{
    if acts.len() == 0 {
        s
    } else {
        run(apply(s, acts[0]), acts.drop_first())
    }
}

/// Whether `a` is a release or a refund of the escrow under `id`.
pub open spec fn pays_out(a: Action, id: u64) -> bool {
    match a {
        Action::Release { bounty_id, .. } => bounty_id == id,
        Action::Refund { bounty_id, .. } => bounty_id == id,
        _ => false,
    }
}

/// Locking valid funds under a fresh id, then reading that id, gives back a
/// `Locked` record that holds exactly the values given.
pub proof fn lemma_lock_then_info(
    s: EscrowLedger,
    depositor: Address,
    bounty_id: u64,
    amount: i128,
    deadline: u64,
    now: u64,
)
    requires
        s.config is Some,
        !s.escrows.contains_key(bounty_id),
        amount > 0,
        deadline > now,
    ensures
        lock_outcome(s, depositor, bounty_id, amount, deadline, now) is Ok,
        escrow_info(lock_outcome(s, depositor, bounty_id, amount, deadline, now)->Ok_0.0, bounty_id)
            == Ok::<Escrow, Error>(
            Escrow { depositor, amount, status: EscrowStatus::Locked, deadline },
        ),
{
}

/// A second lock under an id that is already taken fails with `BountyExists`,
/// and the first record stays as it was.
pub proof fn lemma_lock_twice(
    s: EscrowLedger,
    depositor: Address,
    bounty_id: u64,
    amount: i128,
    deadline: u64,
    now: u64,
    depositor2: Address,
    amount2: i128,
    deadline2: u64,
    now2: u64,
)
    requires
        lock_outcome(s, depositor, bounty_id, amount, deadline, now) is Ok,
        amount2 > 0,
        deadline2 > now2,
    ensures
        ({
            let t = lock_outcome(s, depositor, bounty_id, amount, deadline, now)->Ok_0.0.settled();
            &&& lock_outcome(t, depositor2, bounty_id, amount2, deadline2, now2)
                == Err::<(EscrowLedger, crate::types::Transfer), Error>(Error::BountyExists)
            &&& escrow_info(t, bounty_id) == Ok::<Escrow, Error>(
                Escrow { depositor, amount, status: EscrowStatus::Locked, deadline },
            )
        }),
{
}

/// A release of a record that is not `Locked` always fails; when the admin
/// asks, it fails with `FundsNotLocked`.
pub proof fn lemma_release_not_locked(
    s: EscrowLedger,
    bounty_id: u64,
    contributor: Address,
    caller: Address,
)
    requires
        s.config is Some,
        s.escrows.contains_key(bounty_id),
        s.escrows[bounty_id].status != EscrowStatus::Locked,
    ensures
        release_outcome(s, bounty_id, contributor, caller) is Err,
        caller == s.config->Some_0.admin ==> release_outcome(s, bounty_id, contributor, caller)
            == Err::<(EscrowLedger, crate::types::Transfer), Error>(Error::FundsNotLocked),
{
}

/// A release asked for by anyone but the admin fails with `Unauthorized`,
/// whatever the record, and changes nothing.
pub proof fn lemma_release_unauthorized(
    s: EscrowLedger,
    bounty_id: u64,
    contributor: Address,
    caller: Address,
)
    requires
        s.config is Some,
        caller != s.config->Some_0.admin,
    ensures
        release_outcome(s, bounty_id, contributor, caller)
            == Err::<(EscrowLedger, crate::types::Transfer), Error>(Error::Unauthorized),
        apply(s, Action::Release { bounty_id, contributor, caller }) == s,
{
}

/// A refund of a `Locked` record succeeds when the clock reads its deadline,
/// and fails with `DeadlineNotPassed` one tick earlier.
pub proof fn lemma_refund_at_deadline(s: EscrowLedger, bounty_id: u64)
    requires
        s.wf(),
        s.escrows.contains_key(bounty_id),
        s.escrows[bounty_id].status == EscrowStatus::Locked,
    ensures
        refund_outcome(s, bounty_id, s.escrows[bounty_id].deadline) is Ok,
        refund_outcome(s, bounty_id, (s.escrows[bounty_id].deadline - 1) as u64)
            == Err::<(EscrowLedger, crate::types::Transfer), Error>(Error::DeadlineNotPassed),
{
}

/// A record that is no longer `Locked` stays exactly as it is, whatever
/// calls follow.
pub proof fn lemma_final_record_kept(s: EscrowLedger, bounty_id: u64, acts: Seq<Action>)
    requires
        s.escrows.contains_key(bounty_id),
        s.escrows[bounty_id].status != EscrowStatus::Locked,
    ensures
        run(s, acts).escrows.contains_key(bounty_id),
        run(s, acts).escrows[bounty_id] == s.escrows[bounty_id],
        run(s, acts).config is Some <== s.config is Some,
    decreases acts.len(),
{
    if acts.len() > 0 {
        lemma_final_record_kept(apply(s, acts[0]), bounty_id, acts.drop_first());
    }
}

/// Once a release or a refund of an escrow has succeeded, every later
/// release or refund of it, after any calls in between, fails with
/// `FundsNotLocked` (a release asked for by anyone but the admin fails
/// earlier, with `Unauthorized`).
pub proof fn lemma_no_double_payout(
    s: EscrowLedger,
    bounty_id: u64,
    first: Action,
    acts: Seq<Action>,
    contributor: Address,
    caller: Address,
    now: u64,
)
    requires
        s.wf(),
        pays_out(first, bounty_id),
        succeeds(s, first),
    ensures
        ({
            let u = run(apply(s, first), acts);
            &&& refund_outcome(u, bounty_id, now)
                == Err::<(EscrowLedger, crate::types::Transfer), Error>(Error::FundsNotLocked)
            &&& release_outcome(u, bounty_id, contributor, caller) is Err
            &&& u.config is Some
            &&& caller == u.config->Some_0.admin ==> release_outcome(
                u,
                bounty_id,
                contributor,
                caller,
            ) == Err::<(EscrowLedger, crate::types::Transfer), Error>(Error::FundsNotLocked)
        }),
{
    let t = apply(s, first);
    assert(t.escrows.contains_key(bounty_id));
    assert(t.escrows[bounty_id].status != EscrowStatus::Locked);
    lemma_final_record_kept(t, bounty_id, acts);
}

} // verus!
