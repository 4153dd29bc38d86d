//! The ways in which an operation is refused.

use vstd::prelude::*;

verus! {

/// Why an operation was refused. A refused operation changes nothing.
#[derive(Clone, Copy, Debug, PartialEq, Eq, Structural)]
pub enum CustomError {
    /// A bet or a second verdict on a debate that already has its verdict.
    DebateAlreadyFinalized,
    /// The declared winner is neither of the debate's two agents.
    InvalidWinningAgent,
    /// More was asked for than the position entitles to.
    InsufficientBalance,
    /// The position entitles to nothing on the chosen side.
    NoWinningsToWithdraw,
    /// The acting identity is not the authority that the operation needs.
    UnauthorizedAccess,
    /// A debate was opened before the registry was set up.
    JungleNotInitialized,
    /// The registry was set up a second time.
    JungleAlreadyInitialized,
    /// Winnings are owed on a side whose recorded total is zero.
    InvariantViolation,
}

impl CustomError {
    /// The text that goes with each refusal.
    pub open spec fn text(self) -> Seq<char> {
        match self {
            CustomError::DebateAlreadyFinalized => "Debate has already been finalized"@,
            CustomError::InvalidWinningAgent => "The winning agent is invalid"@,
            CustomError::InsufficientBalance => "Insufficient balance for withdrawal"@,
            CustomError::NoWinningsToWithdraw => "No winnings to withdraw"@,
            CustomError::UnauthorizedAccess => "Unauthorized access"@,
            CustomError::JungleNotInitialized => "Jungle not initialized"@,
            CustomError::JungleAlreadyInitialized => "Jungle already initialized"@,
            CustomError::InvariantViolation => "Winning agent has no stake"@,
        }
    }

    /// A short message for the person whose operation was refused.
    pub fn message(&self) -> (msg: &'static str)
        ensures
            msg@ == self.text(),
    {
        match self {
            CustomError::DebateAlreadyFinalized => "Debate has already been finalized",
            CustomError::InvalidWinningAgent => "The winning agent is invalid",
            CustomError::InsufficientBalance => "Insufficient balance for withdrawal",
            CustomError::NoWinningsToWithdraw => "No winnings to withdraw",
            CustomError::UnauthorizedAccess => "Unauthorized access",
            CustomError::JungleNotInitialized => "Jungle not initialized",
            CustomError::JungleAlreadyInitialized => "Jungle already initialized",
            CustomError::InvariantViolation => "Winning agent has no stake",
        }
    }
}

} // verus!
