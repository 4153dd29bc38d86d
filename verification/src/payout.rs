//! The payout engine: what a position entitles its owner to withdraw.
//!
//! While a debate is open, a participant may take back what they staked.
//! After the verdict, the backers of the winner share the whole pool, both
//! sides together, in proportion to their stakes on the winner; fractions of
//! a lamport stay in the pool.

use vstd::prelude::*;
use crate::error::CustomError;
use crate::state::Debate;
use crate::state::UserBet;

verus! {

/// The verdict owes winnings to a position, but the books show nothing
/// staked on the winner: the share cannot be computed.
pub open spec fn payout_undefined(debate: Debate, bet: UserBet, on_agent_a: bool) -> bool {
    &&& debate.finalized
    &&& debate.won_by(on_agent_a)
    &&& bet.stake_on(on_agent_a) > 0
    &&& debate.total_on(on_agent_a) == 0
}

/// The winner's share of the whole pool for a stake on the winning side,
/// rounded down.
pub open spec fn share(stake: u64, pool: nat, winning_total: u64) -> nat
    recommends
        winning_total > 0,
{
    ((stake * pool) / (winning_total as int)) as nat
}

/// What a position entitles to on one side of a debate.
///
/// Before the verdict it is the stake on that side. After the verdict it is
/// the share of the pool if the side has won and the position has a stake
/// on it, and nothing otherwise.
pub open spec fn withdrawable(debate: Debate, bet: UserBet, on_agent_a: bool) -> nat {
    if !debate.finalized {
        bet.stake_on(on_agent_a) as nat
    } else if debate.won_by(on_agent_a) && bet.stake_on(on_agent_a) > 0 && debate.total_on(
        on_agent_a,
    ) > 0 {
        share(bet.stake_on(on_agent_a), debate.pool(), debate.total_on(on_agent_a))
    } else {
        0
    }
}

/// An entitlement as far as a 64-bit amount can say it.
pub open spec fn capped(entitlement: nat) -> u64 {
    if entitlement <= u64::MAX {
        entitlement as u64
    } else {
        u64::MAX
    }
}

/// The fee on a withdrawal: one percent, rounded down.
pub open spec fn fee_on(amount: u64) -> u64 {
    amount / 100
}

/// Splitting `stake * pool` along `pool == q * total + r` gives the
/// quotient by `total` as `stake * q` plus the quotient of `stake * r`.
proof fn lemma_share_by_parts(stake: int, pool: int, total: int)
    requires
        0 <= stake,
        0 <= pool,
        0 < total,
    ensures
        (stake * pool) / total == stake * (pool / total) + (stake * (pool % total)) / total,
        0 <= pool % total < total,
        0 <= pool / total <= pool,
{
    let q = pool / total;
    let r = pool % total;
    vstd::arithmetic::div_mod::lemma_fundamental_div_mod(pool, total);
    vstd::arithmetic::div_mod::lemma_mod_pos_bound(pool, total);
    vstd::arithmetic::div_mod::lemma_div_pos_is_pos(pool, total);
    vstd::arithmetic::div_mod::lemma_div_nonincreasing(pool, total);
    assert(pool == total * q + r);
    assert(0 <= stake * r) by (nonlinear_arith)
        requires
            0 <= stake,
            0 <= r,
    ;
    let part = (stake * r) / total;
    let rest = (stake * r) % total;
    vstd::arithmetic::div_mod::lemma_fundamental_div_mod(stake * r, total);
    vstd::arithmetic::div_mod::lemma_mod_pos_bound(stake * r, total);
    assert(stake * pool == (stake * q + part) * total + rest) by (nonlinear_arith)
        requires
            pool == total * q + r,
            stake * r == total * part + rest,
    ;
    vstd::arithmetic::div_mod::lemma_fundamental_div_mod_converse(
        stake * pool,
        total,
        stake * q + part,
        rest,
    );
}

/// Who backed the winner gets back at least what they staked.
pub proof fn lemma_winner_recovers_stake(debate: Debate, bet: UserBet, on_agent_a: bool)
    requires
        debate.finalized,
        debate.won_by(on_agent_a),
        debate.total_on(on_agent_a) > 0,
    ensures
        withdrawable(debate, bet, on_agent_a) >= bet.stake_on(on_agent_a),
{
    let stake = bet.stake_on(on_agent_a) as int;
    let total = debate.total_on(on_agent_a) as int;
    let pool = debate.pool() as int;
    if stake > 0 {
        assert(stake * total <= stake * pool) by (nonlinear_arith)
            requires
                0 <= stake,
                total <= pool,
        ;
        vstd::arithmetic::div_mod::lemma_div_is_ordered(stake * total, stake * pool, total);
        vstd::arithmetic::div_mod::lemma_div_multiples_vanish(stake, total);
        assert(stake * total == total * stake) by (nonlinear_arith);
    }
}

/// Who did not back the winner is entitled to nothing after the verdict.
pub proof fn lemma_loser_gets_nothing(debate: Debate, bet: UserBet, on_agent_a: bool)
    requires
        debate.finalized,
        !debate.won_by(on_agent_a),
    ensures
        withdrawable(debate, bet, on_agent_a) == 0,
{
}

/// Computes what a position entitles to on one side of a debate.
///
/// Fails only where winnings are owed on a side whose recorded total is
/// zero. An entitlement beyond the 64-bit range, which no request can name,
/// is reported as the largest 64-bit amount.
pub fn compute_withdrawable(debate: &Debate, bet: &UserBet, on_agent_a: bool) -> (result: Result<
    u64,
    CustomError,
>)
    ensures
        payout_undefined(*debate, *bet, on_agent_a) ==> result == Err::<u64, CustomError>(
            CustomError::InvariantViolation,
        ),
        !payout_undefined(*debate, *bet, on_agent_a) ==> result == Ok::<u64, CustomError>(
            capped(withdrawable(*debate, *bet, on_agent_a)),
        ),
{
    let stake: u64 = if on_agent_a {
        bet.amount_on_a
    } else {
        bet.amount_on_b
    };
    if !debate.finalized {
        return Ok(stake);
    }
    if !debate.has_won(on_agent_a) || stake == 0 {
        return Ok(0);
    }
    let winning_total: u64 = if on_agent_a {
        debate.total_agent_a
    } else {
        debate.total_agent_b
    };
    if winning_total == 0 {
        return Err(CustomError::InvariantViolation);
    }
    let pool: u128 = debate.total_agent_a as u128 + debate.total_agent_b as u128;
    let whole_shares: u128 = pool / (winning_total as u128);
    let left_over: u128 = pool % (winning_total as u128);
    proof {
        lemma_share_by_parts(stake as int, pool as int, winning_total as int);
        assert(stake * whole_shares >= whole_shares) by (nonlinear_arith)
            requires
                stake >= 1,
                whole_shares >= 0,
        ;
        assert(0 <= (stake * left_over) / (winning_total as int)) by {
            assert(0 <= stake * left_over) by (nonlinear_arith)
                requires
                    0 <= stake,
                    0 <= left_over,
            ;
            vstd::arithmetic::div_mod::lemma_div_pos_is_pos(
                stake * left_over,
                winning_total as int,
            );
        }
    }
    if whole_shares > u64::MAX as u128 {
        return Ok(u64::MAX);
    }
    assert(stake * whole_shares <= 0xffff_ffff_ffff_ffff * 0xffff_ffff_ffff_ffff)
        by (nonlinear_arith)
        requires
            0 <= stake <= 0xffff_ffff_ffff_ffff,
            0 <= whole_shares <= 0xffff_ffff_ffff_ffff,
    ;
    assert(stake * left_over <= 0xffff_ffff_ffff_ffff * 0xffff_ffff_ffff_ffff)
        by (nonlinear_arith)
        requires
            0 <= stake <= 0xffff_ffff_ffff_ffff,
            0 <= left_over <= 0xffff_ffff_ffff_ffff,
    ;
    let from_whole: u128 = (stake as u128) * whole_shares;
    let from_left_over: u128 = ((stake as u128) * left_over) / (winning_total as u128);
    proof {
        let total = winning_total as int;
        assert(stake * left_over <= total * stake) by (nonlinear_arith)
            requires
                0 <= stake,
                0 <= left_over < total,
        ;
        vstd::arithmetic::div_mod::lemma_div_is_ordered(stake * left_over, total * stake, total);
        vstd::arithmetic::div_mod::lemma_div_multiples_vanish(stake as int, total);
    }
    let entitlement: u128 = from_whole + from_left_over;
    if entitlement > u64::MAX as u128 {
        Ok(u64::MAX)
    } else {
        Ok(entitlement as u64)
    }
}

/// Computes the fee on a withdrawal of `amount`.
pub fn withdrawal_fee(amount: u64) -> (fee: u64)
    ensures
        fee == fee_on(amount),
        fee <= amount,
{
    amount / 100
}

} // verus!
