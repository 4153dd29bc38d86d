//! Accounting core of a two-sided pari-mutuel wagering pool.
//!
//! Participants stake lamports on one of two agents of a debate. Once the
//! registry operator declares a winner, the whole pool is shared among the
//! backers of the winning agent in proportion to their stakes, less a fee
//! of one percent on every withdrawal.
//!
//! Every operation is a function on plain records: it either fails with a
//! [`CustomError`] and leaves the records as they were, or changes them
//! and says which lamports have to move along with the change.

pub mod accounts;
pub mod error;
pub mod instructions;
pub mod ledger;
pub mod payout;
pub mod pubkey;
pub mod state;
pub mod system_instruction;

pub use accounts::{
    FinalizeDebate, InitializeDebate, InitializeJungle, Payout, PlaceBet, UpdateInitCost, Withdraw,
};
pub use error::CustomError;
pub use instructions::{
    finalize_debate, initialize_debate, initialize_jungle, place_bet, update_init_cost, withdraw,
};
pub use payout::{compute_withdrawable, withdrawal_fee};
pub use pubkey::Pubkey;
pub use state::{Debate, Jungle, UserBet, DEFAULT_INIT_COST};
pub use system_instruction::{AccountMeta, Instruction};
