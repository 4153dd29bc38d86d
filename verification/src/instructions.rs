//! The operations of the ledger.
//!
//! Each one checks who is acting and what state the records are in before
//! it touches anything. A refused operation leaves every record as it was.
//! An accepted one changes the records and names the lamports that have to
//! move with the change; the two stand or fall together.

use vstd::prelude::*;
use crate::accounts::FinalizeDebate;
use crate::accounts::InitializeDebate;
use crate::accounts::InitializeJungle;
use crate::accounts::Payout;
use crate::accounts::PlaceBet;
use crate::accounts::UpdateInitCost;
use crate::accounts::Withdraw;
use crate::error::CustomError;
use crate::payout::compute_withdrawable;
use crate::payout::fee_on;
use crate::payout::payout_undefined;
use crate::payout::withdrawable;
use crate::payout::withdrawal_fee;
use crate::pubkey::Pubkey;
use crate::state::Debate;
use crate::state::Jungle;
use crate::state::UserBet;
use crate::state::DEFAULT_INIT_COST;
use crate::system_instruction::transfer;
use crate::system_instruction::Instruction;

verus! {

/// Why a withdrawal is refused, if it is. The checks come in this order:
/// the fee goes to the debate's authority and to nobody else; the share
/// must be computable; there must be something to withdraw; and the
/// request must not exceed it.
pub open spec fn withdraw_refusal(ctx: Withdraw, amount: u64, on_agent_a: bool) -> Option<
    CustomError,
> {
    if ctx.authority != ctx.debate.authority {
        Some(CustomError::UnauthorizedAccess)
    } else if payout_undefined(ctx.debate, ctx.user_bet, on_agent_a) {
        Some(CustomError::InvariantViolation)
    } else if withdrawable(ctx.debate, ctx.user_bet, on_agent_a) == 0 {
        Some(CustomError::NoWinningsToWithdraw)
    } else if amount > withdrawable(ctx.debate, ctx.user_bet, on_agent_a) {
        Some(CustomError::InsufficientBalance)
    } else {
        None
    }
}

/// A position after an accepted withdrawal. From an open debate the amount
/// comes off the chosen side. After the verdict the one withdrawal uses up
/// the whole position, whatever the amount.
pub open spec fn bet_after_withdrawal(
    debate: Debate,
    bet: UserBet,
    amount: u64,
    on_agent_a: bool,
) -> UserBet {
    if debate.finalized {
        UserBet { amount_on_a: 0, amount_on_b: 0 }
    } else if on_agent_a {
        UserBet { amount_on_a: (bet.amount_on_a - amount) as u64, ..bet }
    } else {
        UserBet { amount_on_b: (bet.amount_on_b - amount) as u64, ..bet }
    }
}

/// A debate after an accepted withdrawal. While it is open the amount comes
/// off the total of the chosen side; after the verdict the totals stand.
pub open spec fn debate_after_withdrawal(debate: Debate, amount: u64, on_agent_a: bool) -> Debate {
    if debate.finalized {
        debate
    } else if on_agent_a {
        Debate { total_agent_a: (debate.total_agent_a - amount) as u64, ..debate }
    } else {
        Debate { total_agent_b: (debate.total_agent_b - amount) as u64, ..debate }
    }
}

/// The records after an accepted withdrawal.
pub open spec fn after_withdrawal(ctx: Withdraw, amount: u64, on_agent_a: bool) -> Withdraw {
    Withdraw {
        debate: debate_after_withdrawal(ctx.debate, amount, on_agent_a),
        user_bet: bet_after_withdrawal(ctx.debate, ctx.user_bet, amount, on_agent_a),
        ..ctx
    }
}

/// The lamports that an accepted withdrawal of `amount` sends out: the fee
/// to the authority, the rest to the participant.
pub open spec fn payout_of(ctx: Withdraw, amount: u64) -> Payout {
    Payout {
        user: ctx.user,
        user_amount: (amount - fee_on(amount)) as u64,
        authority: ctx.authority,
        fee: fee_on(amount),
    }
}

/// Withdraws `amount` from a position on one side of a debate.
///
/// The request is refused as `withdraw_refusal` says. An accepted one
/// updates the position and the debate and returns the lamports to pay out
/// of the debate's custody, which add up to `amount`.
///
/// The total of an open debate on a side must cover what is accepted from
/// a position on it.
pub fn withdraw(ctx: &mut Withdraw, amount: u64, on_agent_a: bool) -> (result: Result<
    Payout,
    CustomError,
>)
    requires
        !old(ctx).debate.finalized && withdraw_refusal(*old(ctx), amount, on_agent_a) is None
            ==> amount <= old(ctx).debate.total_on(on_agent_a),
    ensures
        withdraw_refusal(*old(ctx), amount, on_agent_a) matches Some(refusal) ==> result == Err::<
            Payout,
            CustomError,
        >(refusal) && *final(ctx) == *old(ctx),
        withdraw_refusal(*old(ctx), amount, on_agent_a) is None ==> result == Ok::<
            Payout,
            CustomError,
        >(payout_of(*old(ctx), amount)) && *final(ctx) == after_withdrawal(
            *old(ctx),
            amount,
            on_agent_a,
        ),
        result matches Ok(payout) ==> payout.total() == amount,
        old(ctx).debate.finalized ==> final(ctx).debate.finalized && final(ctx).debate.winning_agent
            == old(ctx).debate.winning_agent,
        old(ctx).debate.wf() ==> final(ctx).debate.wf(),
{
    if ctx.authority != ctx.debate.authority {
        return Err(CustomError::UnauthorizedAccess);
    }
    let available: u64 = match compute_withdrawable(&ctx.debate, &ctx.user_bet, on_agent_a) {
        Ok(available) => available,
        Err(refusal) => {
            return Err(refusal);
        },
    };
    if available == 0 {
        return Err(CustomError::NoWinningsToWithdraw);
    }
    if amount > available {
        return Err(CustomError::InsufficientBalance);
    }
    if ctx.debate.finalized {
        ctx.user_bet.amount_on_a = 0;
        ctx.user_bet.amount_on_b = 0;
    } else if on_agent_a {
        ctx.user_bet.amount_on_a -= amount;
        ctx.debate.total_agent_a -= amount;
    } else {
        ctx.user_bet.amount_on_b -= amount;
        ctx.debate.total_agent_b -= amount;
    }
    let fee: u64 = withdrawal_fee(amount);
    Ok(Payout { user: ctx.user, user_amount: amount - fee, authority: ctx.authority, fee })
}

/// Why a bet is refused, if it is: a debate that has its verdict takes no
/// more bets.
pub open spec fn place_bet_refusal(ctx: PlaceBet) -> Option<CustomError> {
    if ctx.debate.finalized {
        Some(CustomError::DebateAlreadyFinalized)
    } else {
        None
    }
}

/// Whether the books can hold a further `amount` on a side: neither the
/// debate's total nor the position leaves the 64-bit range.
pub open spec fn bet_fits(debate: Debate, bet: UserBet, amount: u64, on_agent_a: bool) -> bool {
    &&& debate.total_on(on_agent_a) + amount <= u64::MAX
    &&& bet.stake_on(on_agent_a) + amount <= u64::MAX
}

/// A position after a bet of `amount` on a side.
pub open spec fn bet_after_bet(bet: UserBet, amount: u64, on_agent_a: bool) -> UserBet {
    if on_agent_a {
        UserBet { amount_on_a: (bet.amount_on_a + amount) as u64, ..bet }
    } else {
        UserBet { amount_on_b: (bet.amount_on_b + amount) as u64, ..bet }
    }
}

/// A debate after a bet of `amount` on a side.
pub open spec fn debate_after_bet(debate: Debate, amount: u64, on_agent_a: bool) -> Debate {
    if on_agent_a {
        Debate { total_agent_a: (debate.total_agent_a + amount) as u64, ..debate }
    } else {
        Debate { total_agent_b: (debate.total_agent_b + amount) as u64, ..debate }
    }
}

/// The records after an accepted bet.
pub open spec fn after_bet(ctx: PlaceBet, amount: u64, on_agent_a: bool) -> PlaceBet {
    PlaceBet {
        debate: debate_after_bet(ctx.debate, amount, on_agent_a),
        user_bet: bet_after_bet(ctx.user_bet, amount, on_agent_a),
        ..ctx
    }
}

/// Stakes `amount` on one side of an open debate.
///
/// An accepted bet adds the amount to the debate's total on that side and
/// to the participant's position, and returns the instruction that brings
/// the lamports from the participant into the debate's custody.
///
/// The books of an open debate must be able to hold the amount.
pub fn place_bet(ctx: &mut PlaceBet, amount: u64, on_agent_a: bool) -> (result: Result<
    Instruction,
    CustomError,
>)
    requires
        !old(ctx).debate.finalized ==> bet_fits(
            old(ctx).debate,
            old(ctx).user_bet,
            amount,
            on_agent_a,
        ),
    ensures
        place_bet_refusal(*old(ctx)) matches Some(refusal) ==> result == Err::<
            Instruction,
            CustomError,
        >(refusal) && *final(ctx) == *old(ctx),
        place_bet_refusal(*old(ctx)) is None ==> *final(ctx) == after_bet(
            *old(ctx),
            amount,
            on_agent_a,
        ),
        place_bet_refusal(*old(ctx)) is None ==> result is Ok && result.unwrap().is_transfer(
            old(ctx).user,
            old(ctx).debate_key,
            amount,
        ),
        old(ctx).debate.finalized ==> final(ctx).debate.finalized && final(ctx).debate.winning_agent
            == old(ctx).debate.winning_agent,
        old(ctx).debate.wf() ==> final(ctx).debate.wf(),
{
    if ctx.debate.finalized {
        return Err(CustomError::DebateAlreadyFinalized);
    }
    if on_agent_a {
        ctx.debate.total_agent_a += amount;
        ctx.user_bet.amount_on_a += amount;
    } else {
        ctx.debate.total_agent_b += amount;
        ctx.user_bet.amount_on_b += amount;
    }
    Ok(transfer(&ctx.user, &ctx.debate_key, amount))
}

/// Why opening a debate is refused, if it is: the opening fee goes to the
/// registry's operator and to nobody else, and the registry must have been
/// set up.
pub open spec fn initialize_debate_refusal(ctx: InitializeDebate) -> Option<CustomError> {
    if ctx.jungle_authority != ctx.jungle.authority {
        Some(CustomError::UnauthorizedAccess)
    } else if !ctx.jungle.initialized() {
        Some(CustomError::JungleNotInitialized)
    } else {
        None
    }
}

/// A debate as it is opened: nothing staked, no verdict, and its creator as
/// the authority that collects its fees.
pub open spec fn fresh_debate(agent_a: Pubkey, agent_b: Pubkey, creator: Pubkey) -> Debate {
    Debate {
        agent_a,
        agent_b,
        total_agent_a: 0,
        total_agent_b: 0,
        finalized: false,
        winning_agent: None,
        authority: creator,
    }
}

/// Opens a debate between two agents.
///
/// An accepted request fills the debate record afresh and returns the
/// instruction that brings the opening fee from the creator to the
/// registry's operator.
pub fn initialize_debate(ctx: &mut InitializeDebate, agent_a: Pubkey, agent_b: Pubkey) -> (result:
    Result<Instruction, CustomError>)
    ensures
        initialize_debate_refusal(*old(ctx)) matches Some(refusal) ==> result == Err::<
            Instruction,
            CustomError,
        >(refusal) && *final(ctx) == *old(ctx),
        initialize_debate_refusal(*old(ctx)) is None ==> *final(ctx) == (InitializeDebate {
            debate: fresh_debate(agent_a, agent_b, old(ctx).user),
            ..*old(ctx)
        }),
        initialize_debate_refusal(*old(ctx)) is None ==> result is Ok && result.unwrap().is_transfer(
            old(ctx).user,
            old(ctx).jungle.authority,
            old(ctx).jungle.init_cost,
        ),
        result is Ok ==> final(ctx).debate.wf(),
{
    if ctx.jungle_authority != ctx.jungle.authority {
        return Err(CustomError::UnauthorizedAccess);
    }
    if !ctx.jungle.is_initialized() {
        return Err(CustomError::JungleNotInitialized);
    }
    ctx.debate.agent_a = agent_a;
    ctx.debate.agent_b = agent_b;
    ctx.debate.total_agent_a = 0;
    ctx.debate.total_agent_b = 0;
    ctx.debate.finalized = false;
    ctx.debate.winning_agent = None;
    ctx.debate.authority = ctx.user;
    Ok(transfer(&ctx.user, &ctx.jungle.authority, ctx.jungle.init_cost))
}

/// Why a verdict is refused, if it is. The checks come in this order: only
/// the registry's operator declares verdicts; a debate gets one verdict;
/// and the winner is one of its two agents.
pub open spec fn finalize_refusal(ctx: FinalizeDebate, winning_agent: Pubkey) -> Option<
    CustomError,
> {
    if ctx.authority != ctx.jungle.authority {
        Some(CustomError::UnauthorizedAccess)
    } else if ctx.debate.finalized {
        Some(CustomError::DebateAlreadyFinalized)
    } else if winning_agent != ctx.debate.agent_a && winning_agent != ctx.debate.agent_b {
        Some(CustomError::InvalidWinningAgent)
    } else {
        None
    }
}

/// A debate with its verdict.
pub open spec fn debate_with_verdict(debate: Debate, winning_agent: Pubkey) -> Debate {
    Debate { finalized: true, winning_agent: Some(winning_agent), ..debate }
}

/// Declares the winner of a debate and so closes it for good.
pub fn finalize_debate(ctx: &mut FinalizeDebate, winning_agent: Pubkey) -> (result: Result<
    (),
    CustomError,
>)
    ensures
        finalize_refusal(*old(ctx), winning_agent) matches Some(refusal) ==> result == Err::<
            (),
            CustomError,
        >(refusal) && *final(ctx) == *old(ctx),
        finalize_refusal(*old(ctx), winning_agent) is None ==> result is Ok && *final(ctx) == (
        FinalizeDebate {
            debate: debate_with_verdict(old(ctx).debate, winning_agent),
            ..*old(ctx)
        }),
        old(ctx).authority != old(ctx).jungle.authority ==> result == Err::<(), CustomError>(
            CustomError::UnauthorizedAccess,
        ) && final(ctx).debate.finalized == old(ctx).debate.finalized,
        old(ctx).debate.finalized ==> final(ctx).debate.finalized && final(ctx).debate.winning_agent
            == old(ctx).debate.winning_agent,
        old(ctx).debate.wf() ==> final(ctx).debate.wf(),
{
    if ctx.authority != ctx.jungle.authority {
        return Err(CustomError::UnauthorizedAccess);
    }
    if ctx.debate.finalized {
        return Err(CustomError::DebateAlreadyFinalized);
    }
    if winning_agent != ctx.debate.agent_a && winning_agent != ctx.debate.agent_b {
        return Err(CustomError::InvalidWinningAgent);
    }
    ctx.debate.finalized = true;
    ctx.debate.winning_agent = Some(winning_agent);
    Ok(())
}

/// Sets up the registry with the caller as its operator and the default
/// opening fee. A registry that already names an operator is left alone.
pub fn initialize_jungle(ctx: &mut InitializeJungle) -> (result: Result<(), CustomError>)
    ensures
        old(ctx).jungle.initialized() ==> result == Err::<(), CustomError>(
            CustomError::JungleAlreadyInitialized,
        ) && *final(ctx) == *old(ctx),
        !old(ctx).jungle.initialized() ==> result is Ok && *final(ctx) == (InitializeJungle {
            jungle: Jungle { authority: old(ctx).authority, init_cost: DEFAULT_INIT_COST },
            ..*old(ctx)
        }),
{
    if ctx.jungle.is_initialized() {
        return Err(CustomError::JungleAlreadyInitialized);
    }
    ctx.jungle.authority = ctx.authority;
    ctx.jungle.init_cost = DEFAULT_INIT_COST;
    Ok(())
}

/// Changes the opening fee. Only the registry's operator may.
pub fn update_init_cost(ctx: &mut UpdateInitCost, new_cost: u64) -> (result: Result<
    (),
    CustomError,
>)
    ensures
        old(ctx).authority != old(ctx).jungle.authority ==> result == Err::<(), CustomError>(
            CustomError::UnauthorizedAccess,
        ) && *final(ctx) == *old(ctx),
        old(ctx).authority == old(ctx).jungle.authority ==> result is Ok && *final(ctx) == (
        UpdateInitCost {
            jungle: Jungle { init_cost: new_cost, ..old(ctx).jungle },
            ..*old(ctx)
        }),
{
    if ctx.authority != ctx.jungle.authority {
        return Err(CustomError::UnauthorizedAccess);
    }
    ctx.jungle.init_cost = new_cost;
    Ok(())
}

} // verus!
