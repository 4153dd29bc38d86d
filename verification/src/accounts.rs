//! What each operation is handed: the records it works on and the
//! identities that take part, and what it hands back for the custodian of
//! the lamports to carry out.

use vstd::prelude::*;
use crate::pubkey::Pubkey;
use crate::state::Debate;
use crate::state::Jungle;
use crate::state::UserBet;

verus! {

/// Setting up the registry: the record to fill, and who will operate it.
#[derive(Clone, Copy, Debug, PartialEq, Eq)]
pub struct InitializeJungle {
    pub jungle: Jungle,
    pub authority: Pubkey,
}

/// Opening a debate: the record to fill, who opens it, the registry, and
/// the account that is to receive the opening fee.
#[derive(Clone, Copy, Debug, PartialEq, Eq)]
pub struct InitializeDebate {
    pub debate: Debate,
    pub user: Pubkey,
    pub jungle_authority: Pubkey,
    pub jungle: Jungle,
}

/// Staking: the debate and where its account lives, the position of the
/// participant in it, and the participant.
#[derive(Clone, Copy, Debug, PartialEq, Eq)]
pub struct PlaceBet {
    pub debate: Debate,
    pub debate_key: Pubkey,
    pub user_bet: UserBet,
    pub user: Pubkey,
}

/// Withdrawing: the debate, the position of the participant in it, the
/// participant, and the account that is to receive the fee.
#[derive(Clone, Copy, Debug, PartialEq, Eq)]
pub struct Withdraw {
    pub debate: Debate,
    pub user_bet: UserBet,
    pub user: Pubkey,
    pub authority: Pubkey,
}

/// What declaring a winner is handed: the debate, who declares, and the registry.
#[derive(Clone, Copy, Debug, PartialEq, Eq)]
pub struct FinalizeDebate {
    pub debate: Debate,
    pub authority: Pubkey,
    pub jungle: Jungle,
}

/// Changing the opening fee: who asks for it, and the registry.
#[derive(Clone, Copy, Debug, PartialEq, Eq)]
pub struct UpdateInitCost {
    pub authority: Pubkey,
    pub jungle: Jungle,
}

/// Lamports that have to leave a debate's custody for an accepted
/// withdrawal: the fee to the debate's authority, the rest to the
/// participant.
#[derive(Clone, Copy, Debug, PartialEq, Eq)]
pub struct Payout {
    pub user: Pubkey,
    pub user_amount: u64,
    pub authority: Pubkey,
    pub fee: u64,
}

impl Payout {
    /// Everything that leaves the debate's custody.
    pub open spec fn total(self) -> nat {
        (self.user_amount + self.fee) as nat
    }
}

} // verus!
