use vstd::prelude::*;
use crate::types::{Address, Transfer};

verus! {

/// The errors of the program escrow.
#[derive(Clone, Copy, Debug, PartialEq, Eq, Structural, Hash)]
pub enum ProgramError {
    AlreadyInitialized,
    NotInitialized,
    ProgramNotFound,
    Unauthorized,
    InvalidAmount,
    LengthMismatch,
    EmptyBatch,
    InsufficientBalance,
    Overflow,
}

/// The aggregate of one program: the funds it was given in all, and what is
/// left of them to pay out.
#[derive(Debug)]
pub struct ProgramData {
    pub program_id: String,
    pub admin: Address,
    pub token: Address,
    pub total_funds: i128,
    pub remaining_balance: i128,
}

/// The abstract value of a `ProgramData`.
pub struct ProgramModel {
    pub program_id: Seq<char>,
    pub admin: Address,
    pub token: Address,
    pub total_funds: i128,
    pub remaining_balance: i128,
}

impl View for ProgramData {
    type V = ProgramModel;

    open spec fn view(&self) -> ProgramModel {
        ProgramModel {
            program_id: self.program_id@,
            admin: self.admin,
            token: self.token,
            total_funds: self.total_funds,
            remaining_balance: self.remaining_balance,
        }
    }
}

impl ProgramData {
    /// A copy of this aggregate.
    pub fn snapshot(&self) -> (r: ProgramData)
        ensures
            r@ == self@,
    {
        ProgramData {
            program_id: self.program_id.clone(),
            admin: self.admin,
            token: self.token,
            total_funds: self.total_funds,
            remaining_balance: self.remaining_balance,
        }
    }
}

/// The abstract state of a program escrow contract.
pub struct ProgramState {
    /// The escrow's own account, which holds the program's funds.
    pub contract: Address,
    pub program: Option<ProgramModel>,
}

impl ProgramState {
    /// The balance left never goes below zero nor above the funds given.
    pub open spec fn wf(self) -> bool {
        self.program matches Some(p) ==> 0 <= p.remaining_balance <= p.total_funds
    }
}

/// The sum of `amounts`.
pub open spec fn total(amounts: Seq<i128>) -> int
    decreases amounts.len(),
{
    if amounts.len() == 0 {
        0
    } else {
        total(amounts.drop_last()) + amounts.last()
    }
}

/// The program that `program_id` names.
pub open spec fn find_program(s: ProgramState, program_id: Seq<char>) -> Result<
    ProgramModel,
    ProgramError,
> {
    match s.program {
        None => Err(ProgramError::NotInitialized),
        Some(p) => if p.program_id == program_id {
            Ok(p)
        } else {
            Err(ProgramError::ProgramNotFound)
        },
    }
}

/// What `initialize_program` does: the first program wins, with no funds.
pub open spec fn init_program_outcome(
    s: ProgramState,
    program_id: Seq<char>,
    admin: Address,
    token: Address,
) -> Result<ProgramState, ProgramError> {
    if s.program is Some {
        Err(ProgramError::AlreadyInitialized)
    } else {
        Ok(
            ProgramState {
                program: Some(
                    ProgramModel {
                        program_id,
                        admin,
                        token,
                        total_funds: 0,
                        remaining_balance: 0,
                    },
                ),
                ..s
            },
        )
    }
}

/// What `lock_program_funds` does: `amount`, already sent to the escrow,
/// is added to both the total and the balance left.
pub open spec fn lock_program_outcome(s: ProgramState, program_id: Seq<char>, amount: i128) -> Result<
    ProgramState,
    ProgramError,
> {
    match find_program(s, program_id) {
        Err(e) => Err(e),
        Ok(p) => {
            if amount <= 0 {
                Err(ProgramError::InvalidAmount)
            } else if p.total_funds + amount > i128::MAX {
                Err(ProgramError::Overflow)
            } else {
                Ok(
                    ProgramState {
                        program: Some(
                            ProgramModel {
                                total_funds: (p.total_funds + amount) as i128,
                                remaining_balance: (p.remaining_balance + amount) as i128,
                                ..p
                            },
                        ),
                        ..s
                    },
                )
            }
        },
    }
}

/// What a payout of `amounts[i]` to each `recipients[i]` does when `caller`
/// asks for it: all of it is paid and the balance left drops by the sum, or
/// nothing is.
pub open spec fn payout_outcome(
    s: ProgramState,
    program_id: Seq<char>,
    recipients: Seq<Address>,
    amounts: Seq<i128>,
    caller: Address,
) -> Result<ProgramState, ProgramError> {
    match find_program(s, program_id) {
        Err(e) => Err(e),
        Ok(p) => {
            if caller != p.admin {
                Err(ProgramError::Unauthorized)
            } else if recipients.len() != amounts.len() {
                Err(ProgramError::LengthMismatch)
            } else if amounts.len() == 0 {
                Err(ProgramError::EmptyBatch)
            } else if exists|i: int| 0 <= i < amounts.len() && #[trigger] amounts[i] <= 0 {
                Err(ProgramError::InvalidAmount)
            } else if total(amounts) > p.remaining_balance {
                Err(ProgramError::InsufficientBalance)
            } else {
                Ok(
                    ProgramState {
                        program: Some(
                            ProgramModel {
                                remaining_balance: (p.remaining_balance - total(amounts)) as i128,
                                ..p
                            },
                        ),
                        ..s
                    },
                )
            }
        },
    }
}

/// The transfers of a payout: `amounts[i]` of the program's token from the
/// escrow to `recipients[i]`, in order.
pub open spec fn payout_transfers(
    s: ProgramState,
    recipients: Seq<Address>,
    amounts: Seq<i128>,
) -> Seq<Transfer> {
    Seq::new(
        recipients.len(),
        |i: int|
            Transfer {
                token: s.program->Some_0.token,
                from: s.contract,
                to: recipients[i],
                amount: amounts[i],
            },
    )
}

/// The program escrow contract: one program, whose funds are paid out to
/// recipients one at a time or in batches.
pub struct ProgramEscrowContract {
    contract: Address,
    program: Option<ProgramData>,
}

impl View for ProgramEscrowContract {
    type V = ProgramState;

    closed spec fn view(&self) -> ProgramState {
        ProgramState {
            contract: self.contract,
            program: match self.program {
                Some(p) => Some(p@),
                None => None,
            },
        }
    }
}

/// The sum of a prefix grows by the next amount.
proof fn lemma_total_step(amounts: Seq<i128>, i: int)
    requires
        0 <= i < amounts.len(),
    ensures
        total(amounts.subrange(0, i + 1)) == total(amounts.subrange(0, i)) + amounts[i],
{
    assert(amounts.subrange(0, i + 1).drop_last() =~= amounts.subrange(0, i));
}

/// With positive amounts, a longer prefix never sums to less.
proof fn lemma_total_prefix_grows(amounts: Seq<i128>, j: int, k: int)
    requires
        0 <= j <= k <= amounts.len(),
        forall|m: int| 0 <= m < amounts.len() ==> #[trigger] amounts[m] > 0,
    ensures
        total(amounts.subrange(0, j)) <= total(amounts.subrange(0, k)),
    decreases k - j,
{
    if j < k {
        lemma_total_prefix_grows(amounts, j, k - 1);
        lemma_total_step(amounts, k - 1);
    }
}

/// The sum of a single amount is that amount.
proof fn lemma_total_single(amount: i128)
    ensures
        total(seq![amount]) == amount,
{
    let s = seq![amount];
    assert(s.drop_last() =~= Seq::<i128>::empty());
    assert(total(Seq::<i128>::empty()) == 0);
    assert(s.last() == amount);
    assert(total(s) == total(s.drop_last()) + s.last());
}

impl ProgramEscrowContract {
    /// A contract whose own account is `contract`, with no program yet.
    pub fn new(contract: Address) -> (r: Self)
        ensures
            r@.contract == contract,
            r@.program is None,
            r@.wf(),
    {
        ProgramEscrowContract { contract, program: None }
    }

    /// The program that `program_id` names.
    fn find(&self, program_id: &String) -> (r: Result<&ProgramData, ProgramError>)
        ensures
            match find_program(self@, program_id@) {
                Ok(p) => r matches Ok(d) && d@ == p,
                Err(e) => r == Err::<&ProgramData, ProgramError>(e),
            },
    {
        match &self.program {
            None => Err(ProgramError::NotInitialized),
            Some(p) => {
                if p.program_id == *program_id {
                    Ok(p)
                } else {
                    Err(ProgramError::ProgramNotFound)
                }
            },
        }
    }

    /// Sets the total and the balance left of the program.
    fn set_balances(&mut self, total_funds: i128, remaining_balance: i128)
        requires
            old(self)@.program is Some,
        ensures
            final(self)@ == (ProgramState {
                program: Some(
                    ProgramModel { total_funds, remaining_balance, ..old(self)@.program->Some_0 },
                ),
                ..old(self)@
            }),
    {
        if let Some(mut p) = self.program.take() {
            p.total_funds = total_funds;
            p.remaining_balance = remaining_balance;
            self.program = Some(p);
        }
    }

    /// Registers the program `program_id`, paid out on the word of `admin` in
    /// `token`, with no funds yet; fails if a program is already registered.
    pub fn initialize_program(&mut self, program_id: String, admin: Address, token: Address) -> (r:
        Result<ProgramData, ProgramError>)
        requires
            old(self)@.wf(),
        ensures
            final(self)@.wf(),
            match init_program_outcome(old(self)@, program_id@, admin, token) {
                Ok(t) => final(self)@ == t && (r matches Ok(d) && d@ == t.program->Some_0),
                Err(e) => final(self)@ == old(self)@ && (r matches Err(x) && x == e),
            },
    {
        if self.program.is_some() {
            return Err(ProgramError::AlreadyInitialized);
        }
        let data = ProgramData { program_id, admin, token, total_funds: 0, remaining_balance: 0 };
        let out = data.snapshot();
        self.program = Some(data);
        Ok(out)
    }

    /// Accounts for `amount` that was sent to the escrow for the program:
    /// both its total and its balance left grow by it.
    pub fn lock_program_funds(&mut self, program_id: &String, amount: i128) -> (r: Result<
        ProgramData,
        ProgramError,
    >)
        requires
            old(self)@.wf(),
        ensures
            final(self)@.wf(),
            match lock_program_outcome(old(self)@, program_id@, amount) {
                Ok(t) => final(self)@ == t && (r matches Ok(d) && d@ == t.program->Some_0),
                Err(e) => final(self)@ == old(self)@ && (r matches Err(x) && x == e),
            },
    {
        let p = match self.find(program_id) {
            Ok(p) => p,
            Err(e) => {
                return Err(e);
            },
        };
        if amount <= 0 {
            return Err(ProgramError::InvalidAmount);
        }
        let total_funds = match p.total_funds.checked_add(amount) {
            Some(t) => t,
            None => {
                return Err(ProgramError::Overflow);
            },
        };
        let remaining_balance = p.remaining_balance + amount;
        self.set_balances(total_funds, remaining_balance);
        self.get_program_info(program_id)
    }

    /// Pays `amount` to `recipient` out of the program's balance, on the word
    /// of `caller`, who must be the program's admin. Returns the transfer to
    /// perform.
    pub fn single_payout(
        &mut self,
        program_id: &String,
        recipient: Address,
        amount: i128,
        caller: Address,
    ) -> (r: Result<Transfer, ProgramError>)
        requires
            old(self)@.wf(),
        ensures
            final(self)@.wf(),
            match payout_outcome(old(self)@, program_id@, seq![recipient], seq![amount], caller) {
                Ok(t) => final(self)@ == t && r == Ok::<Transfer, ProgramError>(
                    payout_transfers(old(self)@, seq![recipient], seq![amount])[0],
                ),
                Err(e) => r == Err::<Transfer, ProgramError>(e) && final(self)@ == old(self)@,
            },
    {
        proof {
            lemma_total_single(amount);
            assert(seq![amount][0] == amount);
        }
        let p = match self.find(program_id) {
            Ok(p) => p,
            Err(e) => {
                return Err(e);
            },
        };
        if caller != p.admin {
            return Err(ProgramError::Unauthorized);
        }
        if amount <= 0 {
            return Err(ProgramError::InvalidAmount);
        }
        if amount > p.remaining_balance {
            return Err(ProgramError::InsufficientBalance);
        }
        let transfer = Transfer { token: p.token, from: self.contract, to: recipient, amount };
        let total_funds = p.total_funds;
        let remaining_balance = p.remaining_balance - amount;
        self.set_balances(total_funds, remaining_balance);
        Ok(transfer)
    }

    /// Pays `amounts[i]` to `recipients[i]`, for every `i`, out of the
    /// program's balance, on the word of `caller`, who must be the program's
    /// admin. All of it is paid or none: every amount must be positive and
    /// their sum at most the balance left. Returns the transfers to perform.
    pub fn batch_payout(
        &mut self,
        program_id: &String,
        recipients: &Vec<Address>,
        amounts: &Vec<i128>,
        caller: Address,
    ) -> (r: Result<Vec<Transfer>, ProgramError>)
        requires
            old(self)@.wf(),
        ensures
            final(self)@.wf(),
            match payout_outcome(old(self)@, program_id@, recipients@, amounts@, caller) {
                Ok(t) => final(self)@ == t && (r matches Ok(v) && v@ == payout_transfers(
                    old(self)@,
                    recipients@,
                    amounts@,
                )),
                Err(e) => final(self)@ == old(self)@ && (r matches Err(x) && x == e),
            },
    {
        let p = match self.find(program_id) {
            Ok(p) => p,
            Err(e) => {
                return Err(e);
            },
        };
        if caller != p.admin {
            return Err(ProgramError::Unauthorized);
        }
        let n = amounts.len();
        if recipients.len() != n {
            return Err(ProgramError::LengthMismatch);
        }
        if n == 0 {
            return Err(ProgramError::EmptyBatch);
        }
        let remaining = p.remaining_balance;
        let total_funds = p.total_funds;
        let token = p.token;
        let mut i: usize = 0;
        while i < n
            invariant
                n == amounts@.len(),
                n == recipients@.len(),
                n > 0,
                i <= n,
                forall|m: int| 0 <= m < i ==> #[trigger] amounts@[m] > 0,
                find_program(old(self)@, program_id@) == Ok::<ProgramModel, ProgramError>(
                    old(self)@.program->Some_0,
                ),
                caller == old(self)@.program->Some_0.admin,
                old(self)@.wf(),
                self@ == old(self)@,
            decreases n - i,
        {
            if amounts[i] <= 0 {
                return Err(ProgramError::InvalidAmount);
            }
            i = i + 1;
        }
        let mut sum: i128 = 0;
        let mut transfers: Vec<Transfer> = Vec::new();
        i = 0;
        while i < n
            invariant
                n == amounts@.len(),
                n == recipients@.len(),
                i <= n,
                0 <= remaining,
                forall|m: int| 0 <= m < n ==> #[trigger] amounts@[m] > 0,
                sum == total(amounts@.subrange(0, i as int)),
                0 <= sum <= remaining,
                transfers@ == payout_transfers(old(self)@, recipients@, amounts@).subrange(
                    0,
                    i as int,
                ),
                token == old(self)@.program->Some_0.token,
                remaining == old(self)@.program->Some_0.remaining_balance,
                total_funds == old(self)@.program->Some_0.total_funds,
                find_program(old(self)@, program_id@) == Ok::<ProgramModel, ProgramError>(
                    old(self)@.program->Some_0,
                ),
                caller == old(self)@.program->Some_0.admin,
                old(self)@.wf(),
                self@ == old(self)@,
            decreases n - i,
        {
            proof {
                lemma_total_step(amounts@, i as int);
            }
            if amounts[i] > remaining - sum {
                proof {
                    lemma_total_prefix_grows(amounts@, i as int + 1, n as int);
                    assert(amounts@.subrange(0, n as int) =~= amounts@);
                }
                return Err(ProgramError::InsufficientBalance);
            }
            sum = sum + amounts[i];
            transfers.push(Transfer { token, from: self.contract, to: recipients[i], amount: amounts[i] });
            i = i + 1;
            proof {
                assert(transfers@ =~= payout_transfers(old(self)@, recipients@, amounts@).subrange(
                    0,
                    i as int,
                ));
            }
        }
        proof {
            assert(amounts@.subrange(0, n as int) =~= amounts@);
            assert(transfers@ =~= payout_transfers(old(self)@, recipients@, amounts@));
        }
        self.set_balances(total_funds, remaining - sum);
        Ok(transfers)
    }

    /// The aggregate of the program `program_id`.
    pub fn get_program_info(&self, program_id: &String) -> (r: Result<ProgramData, ProgramError>)
        ensures
            match find_program(self@, program_id@) {
                Ok(p) => r matches Ok(d) && d@ == p,
                Err(e) => r matches Err(x) && x == e,
            },
    {
        match self.find(program_id) {
            Ok(p) => Ok(p.snapshot()),
            Err(e) => Err(e),
        }
    }

    /// The balance left of the program `program_id`.
    pub fn get_remaining_balance(&self, program_id: &String) -> (r: Result<i128, ProgramError>)
        ensures
            match find_program(self@, program_id@) {
                Ok(p) => r == Ok::<i128, ProgramError>(p.remaining_balance),
                Err(e) => r == Err::<i128, ProgramError>(e),
            },
    {
        match self.find(program_id) {
            Ok(p) => Ok(p.remaining_balance),
            Err(e) => Err(e),
        }
    }
}

/// A valid batch against a balance `R` whose amounts sum to `S`: when
/// `S <= R` it succeeds and leaves `R - S`; when `S > R` it fails with
/// `InsufficientBalance`, and a failed payout leaves the state unchanged.
pub proof fn lemma_batch_balance(
    s: ProgramState,
    program_id: Seq<char>,
    recipients: Seq<Address>,
    amounts: Seq<i128>,
    caller: Address,
)
    requires
        s.wf(),
        find_program(s, program_id) is Ok,
        caller == s.program->Some_0.admin,
        recipients.len() == amounts.len(),
        amounts.len() > 0,
        forall|i: int| 0 <= i < amounts.len() ==> #[trigger] amounts[i] > 0,
    ensures
        ({
            let r = s.program->Some_0.remaining_balance as int;
            let out = payout_outcome(s, program_id, recipients, amounts, caller);
            &&& total(amounts) <= r ==> out is Ok && out->Ok_0.program->Some_0.remaining_balance
                == r - total(amounts)
            &&& total(amounts) > r ==> out == Err::<ProgramState, ProgramError>(
                ProgramError::InsufficientBalance,
            )
        }),
{
    lemma_total_positive(amounts);
}

/// Locking and paying out keep the balance left between zero and the funds
/// given; locking raises the funds given by the amount and paying out leaves
/// them as they were.
pub proof fn lemma_totals_monotone(
    s: ProgramState,
    program_id: Seq<char>,
    amount: i128,
    recipients: Seq<Address>,
    amounts: Seq<i128>,
    caller: Address,
)
    requires
        s.wf(),
    ensures
        lock_program_outcome(s, program_id, amount) matches Ok(t) ==> {
            &&& t.wf()
            &&& t.program->Some_0.total_funds == s.program->Some_0.total_funds + amount
        },
        payout_outcome(s, program_id, recipients, amounts, caller) matches Ok(t) ==> {
            &&& t.wf()
            &&& t.program->Some_0.total_funds == s.program->Some_0.total_funds
            &&& t.program->Some_0.remaining_balance < s.program->Some_0.remaining_balance
        },
{
    if payout_outcome(s, program_id, recipients, amounts, caller) is Ok {
        lemma_total_positive(amounts);
    }
}

/// The sum of positive amounts is positive.
proof fn lemma_total_positive(amounts: Seq<i128>)
    requires
        amounts.len() > 0,
        forall|i: int| 0 <= i < amounts.len() ==> #[trigger] amounts[i] > 0,
    ensures
        total(amounts) > 0,
    decreases amounts.len(),
{
    if amounts.len() > 1 {
        lemma_total_positive(amounts.drop_last());
    } else {
        assert(amounts.drop_last() =~= Seq::<i128>::empty());
        assert(total(Seq::<i128>::empty()) == 0);
    }
}

} // verus!
