use vstd::prelude::*;
use std::collections::HashMap;
use crate::types::{Address, BalanceQuery, Config, Error, Escrow, EscrowStatus, Transfer};

verus! {

broadcast use vstd::std_specs::hash::group_hash_axioms;

/// The abstract state of a bounty escrow contract.
pub struct EscrowLedger {
    /// The escrow's own account, which holds the locked funds.
    pub contract: Address,
    /// Written once by `init`.
    pub config: Option<Config>,
    /// One record per bounty id; records are never removed.
    pub escrows: Map<u64, Escrow>,
    /// Set while an operation's transfer is in flight.
    pub guard: bool,
}

impl EscrowLedger {
    /// Every record holds a positive amount and a deadline after the clock's
    /// start, and records exist only once the contract is configured.
    pub open spec fn wf(self) -> bool {
        &&& forall|id: u64| #[trigger]
            self.escrows.contains_key(id) ==> self.escrows[id].amount > 0
        &&& forall|id: u64| #[trigger]
            self.escrows.contains_key(id) ==> self.escrows[id].deadline > 0
        &&& forall|id: u64| #[trigger] self.escrows.contains_key(id) ==> self.config is Some
    }

    /// The state once the operation in flight has finished: the guard is clear.
    pub open spec fn settled(self) -> EscrowLedger {
        EscrowLedger { guard: false, ..self }
    }

    /// The state with the record under `bounty_id` moved to `status`, and the
    /// guard held for the outgoing transfer.
    pub open spec fn with_status(self, bounty_id: u64, status: EscrowStatus) -> EscrowLedger {
        EscrowLedger {
            escrows: self.escrows.insert(bounty_id, Escrow { status, ..self.escrows[bounty_id] }),
            guard: true,
            ..self
        }
    }
}

/// What `init` does: the first configuration wins.
pub open spec fn init_outcome(s: EscrowLedger, admin: Address, token: Address) -> Result<
    EscrowLedger,
    Error,
> {
    if s.config is Some {
        Err(Error::AlreadyInitialized)
    } else {
        Ok(EscrowLedger { config: Some(Config { admin, token }), ..s })
    }
}

/// What `lock_funds` does: the new state, and the transfer from the depositor
/// into custody; or the first check that fails.
pub open spec fn lock_outcome(
    s: EscrowLedger,
    depositor: Address,
    bounty_id: u64,
    amount: i128,
    deadline: u64,
    now: u64,
) -> Result<(EscrowLedger, Transfer), Error> {
    match s.config {
        None => Err(Error::NotInitialized),
        Some(c) => {
            if amount <= 0 {
                Err(Error::InvalidAmount)
            } else if deadline <= now {
                Err(Error::InvalidDeadline)
            } else if s.escrows.contains_key(bounty_id) {
                Err(Error::BountyExists)
            } else {
                Ok(
                    (
                        EscrowLedger {
                            escrows: s.escrows.insert(
                                bounty_id,
                                Escrow { depositor, amount, status: EscrowStatus::Locked, deadline },
                            ),
                            guard: true,
                            ..s
                        },
                        Transfer { token: c.token, from: depositor, to: s.contract, amount },
                    ),
                )
            }
        },
    }
}

/// What `release_funds` does when `caller` asks for it: the record is marked
/// released, and its amount goes from custody to the contributor.
pub open spec fn release_outcome(
    s: EscrowLedger,
    bounty_id: u64,
    contributor: Address,
    caller: Address,
) -> Result<(EscrowLedger, Transfer), Error> {
    match s.config {
        None => Err(Error::NotInitialized),
        Some(c) => {
            if caller != c.admin {
                Err(Error::Unauthorized)
            } else if !s.escrows.contains_key(bounty_id) {
                Err(Error::BountyNotFound)
            } else if s.escrows[bounty_id].status != EscrowStatus::Locked {
                Err(Error::FundsNotLocked)
            } else {
                Ok(
                    (
                        s.with_status(bounty_id, EscrowStatus::Released),
                        Transfer {
                            token: c.token,
                            from: s.contract,
                            to: contributor,
                            amount: s.escrows[bounty_id].amount,
                        },
                    ),
                )
            }
        },
    }
}

/// What `refund` does at time `now`: the record is marked refunded, and its
/// amount goes from custody back to the depositor.
pub open spec fn refund_outcome(s: EscrowLedger, bounty_id: u64, now: u64) -> Result<
    (EscrowLedger, Transfer),
    Error,
> {
    if !s.escrows.contains_key(bounty_id) {
        Err(Error::BountyNotFound)
    } else if s.escrows[bounty_id].status != EscrowStatus::Locked {
        Err(Error::FundsNotLocked)
    } else if now < s.escrows[bounty_id].deadline {
        Err(Error::DeadlineNotPassed)
    } else {
        let e = s.escrows[bounty_id];
        Ok(
            (
                s.with_status(bounty_id, EscrowStatus::Refunded),
                Transfer {
                    token: s.config.unwrap().token,
                    from: s.contract,
                    to: e.depositor,
                    amount: e.amount,
                },
            ),
        )
    }
}

/// The record kept under `bounty_id`.
pub open spec fn escrow_info(s: EscrowLedger, bounty_id: u64) -> Result<Escrow, Error> {
    if s.escrows.contains_key(bounty_id) {
        Ok(s.escrows[bounty_id])
    } else {
        Err(Error::BountyNotFound)
    }
}

/// The escrow contract: configuration, escrow records and execution guard.
///
/// Each mutating operation checks its preconditions, commits the new state,
/// and hands back the transfer that the caller then performs on the token
/// contract. The record's status is committed before that transfer, and the
/// guard stays held until `complete` is called after it.
pub struct BountyEscrowContract {
    contract: Address,
    config: Option<Config>,
    escrows: HashMap<u64, Escrow>,
    guard: bool,
}

impl View for BountyEscrowContract {
    type V = EscrowLedger;

    closed spec fn view(&self) -> EscrowLedger {
        EscrowLedger {
            contract: self.contract,
            config: self.config,
            escrows: self.escrows@,
            guard: self.guard,
        }
    }
}

impl BountyEscrowContract {
    /// A contract whose own account is `contract`, not yet configured.
    pub fn new(contract: Address) -> (r: Self)
        ensures
            r@.contract == contract,
            r@.config is None,
            r@.escrows == Map::<u64, Escrow>::empty(),
            !r@.guard,
            r@.wf(),
    {
        BountyEscrowContract { contract, config: None, escrows: HashMap::new(), guard: false }
    }

    /// Whether an operation is in flight; a call that finds it so must abort.
    pub fn is_guarded(&self) -> (r: bool)
        ensures
            r == self@.guard,
    {
        self.guard
    }

    /// Ends the operation in flight, once its transfer has been performed.
    pub fn complete(&mut self)
        ensures
            final(self)@ == old(self)@.settled(),
    {
        self.guard = false;
    }

    /// Stores the admin and the token contract; fails if already configured.
    pub fn init(&mut self, admin: Address, token: Address) -> (r: Result<(), Error>)
        requires
            old(self)@.wf(),
        ensures
            final(self)@.wf(),
            match init_outcome(old(self)@, admin, token) {
                Ok(t) => r is Ok && final(self)@ == t,
                Err(e) => r == Err::<(), Error>(e) && final(self)@ == old(self)@,
            },
    {
        if self.config.is_some() {
            return Err(Error::AlreadyInitialized);
        }
        self.config = Some(Config { admin, token });
        Ok(())
    }

    /// Locks `amount` from `depositor` under `bounty_id` until `deadline`,
    /// with the clock at `now`. On success the record is `Locked`, the guard is
    /// held, and the returned transfer moves the funds into custody.
    pub fn lock_funds(
        &mut self,
        depositor: Address,
        bounty_id: u64,
        amount: i128,
        deadline: u64,
        now: u64,
    ) -> (r: Result<Transfer, Error>)
        requires
            old(self)@.wf(),
            !old(self)@.guard,
        ensures
            final(self)@.wf(),
            match lock_outcome(old(self)@, depositor, bounty_id, amount, deadline, now) {
                Ok((t, tr)) => r == Ok::<Transfer, Error>(tr) && final(self)@ == t,
                Err(e) => r == Err::<Transfer, Error>(e) && final(self)@ == old(self)@,
            },
    {
        let c = match self.config {
            None => {
                return Err(Error::NotInitialized);
            },
            Some(c) => c,
        };
        if amount <= 0 {
            return Err(Error::InvalidAmount);
        }
        if deadline <= now {
            return Err(Error::InvalidDeadline);
        }
        if self.escrows.contains_key(&bounty_id) {
            return Err(Error::BountyExists);
        }
        self.guard = true;
        let escrow = Escrow { depositor, amount, status: EscrowStatus::Locked, deadline };
        self.escrows.insert(bounty_id, escrow);
        Ok(Transfer { token: c.token, from: depositor, to: self.contract, amount })
    }

    /// Releases the funds under `bounty_id` to `contributor`, on behalf of
    /// `caller`, who must be the admin. The record is marked `Released`
    /// before the returned transfer pays the contributor out of custody.
    pub fn release_funds(&mut self, bounty_id: u64, contributor: Address, caller: Address) -> (r:
        Result<Transfer, Error>)
        requires
            old(self)@.wf(),
            !old(self)@.guard,
        ensures
            final(self)@.wf(),
            match release_outcome(old(self)@, bounty_id, contributor, caller) {
                Ok((t, tr)) => r == Ok::<Transfer, Error>(tr) && final(self)@ == t,
                Err(e) => r == Err::<Transfer, Error>(e) && final(self)@ == old(self)@,
            },
    {
        let c = match self.config {
            None => {
                return Err(Error::NotInitialized);
            },
            Some(c) => c,
        };
        if caller != c.admin {
            return Err(Error::Unauthorized);
        }
        let mut escrow = match self.escrows.get(&bounty_id) {
            None => {
                return Err(Error::BountyNotFound);
            },
            Some(e) => *e,
        };
        if escrow.status != EscrowStatus::Locked {
            return Err(Error::FundsNotLocked);
        }
        self.guard = true;
        escrow.status = EscrowStatus::Released;
        self.escrows.insert(bounty_id, escrow);
        Ok(Transfer { token: c.token, from: self.contract, to: contributor, amount: escrow.amount })
    }

    /// Returns the funds under `bounty_id` to their depositor, once `now` has
    /// reached the deadline; anyone may ask. The record is marked `Refunded`
    /// before the returned transfer pays the depositor out of custody.
    pub fn refund(&mut self, bounty_id: u64, now: u64) -> (r: Result<Transfer, Error>)
        requires
            old(self)@.wf(),
            !old(self)@.guard,
        ensures
            final(self)@.wf(),
            match refund_outcome(old(self)@, bounty_id, now) {
                Ok((t, tr)) => r == Ok::<Transfer, Error>(tr) && final(self)@ == t,
                Err(e) => r == Err::<Transfer, Error>(e) && final(self)@ == old(self)@,
            },
    {
        let mut escrow = match self.escrows.get(&bounty_id) {
            None => {
                return Err(Error::BountyNotFound);
            },
            Some(e) => *e,
        };
        if escrow.status != EscrowStatus::Locked {
            return Err(Error::FundsNotLocked);
        }
        if now < escrow.deadline {
            return Err(Error::DeadlineNotPassed);
        }
        let token = match self.config {
            Some(c) => c.token,
            None => {
                return Err(Error::NotInitialized);
            },
        };
        self.guard = true;
        escrow.status = EscrowStatus::Refunded;
        self.escrows.insert(bounty_id, escrow);
        Ok(Transfer { token, from: self.contract, to: escrow.depositor, amount: escrow.amount })
    }

    /// The record kept under `bounty_id`.
    pub fn get_escrow_info(&self, bounty_id: u64) -> (r: Result<Escrow, Error>)
        ensures
            r == escrow_info(self@, bounty_id),
    {
        match self.escrows.get(&bounty_id) {
            Some(e) => Ok(*e),
            None => Err(Error::BountyNotFound),
        }
    }

    /// The balance to read for the funds in custody: what the escrow's own
    /// account holds of the configured token.
    pub fn get_balance(&self) -> (r: Result<BalanceQuery, Error>)
        ensures
            match self@.config {
                Some(c) => r == Ok::<BalanceQuery, Error>(
                    BalanceQuery { token: c.token, owner: self@.contract },
                ),
                None => r == Err::<BalanceQuery, Error>(Error::NotInitialized),
            },
    {
        match self.config {
            Some(c) => Ok(BalanceQuery { token: c.token, owner: self.contract }),
            None => Err(Error::NotInitialized),
        }
    }
}

} // verus!
