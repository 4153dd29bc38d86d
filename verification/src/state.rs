//! The three kinds of record that the ledger keeps.

use vstd::prelude::*;
use crate::pubkey::lemma_default_unique;
use crate::pubkey::Pubkey;

verus! {

/// What it costs to open a debate until the operator says otherwise.
pub const DEFAULT_INIT_COST: u64 = 100_000_000;

/// The registry: who operates the system, and the fee for a new debate.
#[derive(Clone, Copy, Debug, PartialEq, Eq)]
pub struct Jungle {
    pub authority: Pubkey,
    pub init_cost: u64,
}

/// One debate between two agents, and the pool staked on its outcome.
#[derive(Clone, Copy, Debug, PartialEq, Eq)]
pub struct Debate {
    pub agent_a: Pubkey,
    pub agent_b: Pubkey,
    pub total_agent_a: u64,
    pub total_agent_b: u64,
    pub finalized: bool,
    pub winning_agent: Option<Pubkey>,
    pub authority: Pubkey,
}

/// What one participant has at stake in one debate.
#[derive(Clone, Copy, Debug, PartialEq, Eq)]
pub struct UserBet {
    pub amount_on_a: u64,
    pub amount_on_b: u64,
}

impl Jungle {
    /// A registry counts as set up once it names an operator.
    pub open spec fn initialized(self) -> bool {
        !self.authority.is_default()
    }

    /// Tells whether the registry has been set up.
    pub fn is_initialized(&self) -> (yes: bool)
        ensures
            yes == self.initialized(),
    {
        let unset = Pubkey::default();
        proof {
            if self.authority.is_default() {
                lemma_default_unique(self.authority, unset);
            }
        }
        self.authority != unset
    }
}

impl Debate {
    /// The agent that stands for a side.
    pub open spec fn agent(self, on_agent_a: bool) -> Pubkey {
        if on_agent_a {
            self.agent_a
        } else {
            self.agent_b
        }
    }

    /// Everything staked on a side.
    pub open spec fn total_on(self, on_agent_a: bool) -> u64 {
        if on_agent_a {
            self.total_agent_a
        } else {
            self.total_agent_b
        }
    }

    /// Everything staked on the debate, both sides together.
    pub open spec fn pool(self) -> nat {
        (self.total_agent_a + self.total_agent_b) as nat
    }

    /// Whether the verdict went to the agent of a side.
    pub open spec fn won_by(self, on_agent_a: bool) -> bool {
        self.winning_agent == Some(self.agent(on_agent_a))
    }

    /// A debate is open without a winner, or finalized with one of its
    /// two agents as the winner.
    pub open spec fn wf(self) -> bool {
        match self.winning_agent {
            None => !self.finalized,
            Some(winner) => self.finalized && (winner == self.agent_a || winner
                == self.agent_b),
        }
    }

    /// Tells whether the verdict went to the agent of the side.
    pub fn has_won(&self, on_agent_a: bool) -> (yes: bool)
        ensures
            yes == self.won_by(on_agent_a),
    {
        match self.winning_agent {
            None => false,
            Some(winner) => if on_agent_a {
                winner == self.agent_a
            } else {
                winner == self.agent_b
            },
        }
    }
}

impl UserBet {
    /// What the participant has on a side.
    pub open spec fn stake_on(self, on_agent_a: bool) -> u64 {
        if on_agent_a {
            self.amount_on_a
        } else {
            self.amount_on_b
        }
    }

    /// A position with nothing on either side.
    pub open spec fn empty(self) -> bool {
        self.amount_on_a == 0 && self.amount_on_b == 0
    }
}

impl Default for UserBet {
    /// The position of somebody who has not bet yet.
    fn default() -> (bet: UserBet)
        ensures
            bet.empty(),
    {
        UserBet { amount_on_a: 0, amount_on_b: 0 }
    }
}

} // verus!
