//! A fund-custody state machine for escrowed payments: a depositor locks
//! funds under a bounty id, the admin releases them to a contributor, or
//! anyone refunds them to the depositor once the deadline has passed; and a
//! program escrow that pays one running balance out to many recipients.
//!
//! Operations commit their new state and hand back the transfers to perform
//! on the token contract; the caller performs them.

pub mod bounty;
pub mod bounty_laws;
pub mod program;
pub mod types;

pub use bounty::{BountyEscrowContract, EscrowLedger};
pub use bounty_laws::Action;
pub use program::{ProgramData, ProgramError, ProgramEscrowContract};
pub use types::{Address, BalanceQuery, Config, DataKey, Error, Escrow, EscrowStatus, Transfer};
