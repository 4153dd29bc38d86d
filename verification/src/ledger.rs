//! One debate and the positions of all its participants, seen together.
//!
//! The operations work on one position at a time. What is stated here is
//! what they keep true of the books as a whole: while a debate is open, its
//! totals are the sums of the positions; and a verdict, once given, stands.

use vstd::prelude::*;
use crate::accounts::FinalizeDebate;
use crate::accounts::PlaceBet;
use crate::accounts::Withdraw;
use crate::error::CustomError;
use crate::instructions::after_bet;
use crate::instructions::after_withdrawal;
use crate::instructions::bet_fits;
use crate::instructions::debate_with_verdict;
use crate::instructions::finalize_refusal;
use crate::instructions::fresh_debate;
use crate::instructions::place_bet_refusal;
use crate::instructions::withdraw_refusal;
use crate::payout::withdrawable;
use crate::pubkey::Pubkey;
use crate::state::Debate;
use crate::state::Jungle;
use crate::state::UserBet;

verus! {

/// The books of one debate: the registry, the debate and where its account
/// lives, and the position of every participant, each under the number at
/// which the participant joined.
pub struct Book {
    pub jungle: Jungle,
    pub debate: Debate,
    pub debate_key: Pubkey,
    pub bets: Seq<UserBet>,
}

/// One request to the ledger, as it arrives.
pub enum Move {
    /// Somebody new gets a position, with nothing on either side.
    Join,
    /// A participant stakes an amount on a side.
    Bet { who: int, user: Pubkey, amount: u64, on_agent_a: bool },
    /// A participant withdraws an amount from a side, with the fee going to
    /// the named authority.
    Withdrawal { who: int, user: Pubkey, authority: Pubkey, amount: u64, on_agent_a: bool },
    /// Somebody declares a winner.
    Verdict { caller: Pubkey, winning_agent: Pubkey },
}

/// The sum of all positions on one side.
pub open spec fn staked_on(bets: Seq<UserBet>, on_agent_a: bool) -> nat
    decreases bets.len(),
{
    if bets.len() == 0 {
        0
    } else {
        staked_on(bets.drop_last(), on_agent_a) + bets.last().stake_on(on_agent_a) as nat
    }
}

impl Book {
    /// The debate's total on each side is the sum of the positions on it.
    pub open spec fn balanced(self) -> bool {
        &&& self.debate.total_agent_a == staked_on(self.bets, true)
        &&& self.debate.total_agent_b == staked_on(self.bets, false)
    }

    /// The books of a debate that has just been opened: nobody has joined.
    pub open spec fn opened(
        jungle: Jungle,
        debate_key: Pubkey,
        agent_a: Pubkey,
        agent_b: Pubkey,
        creator: Pubkey,
    ) -> Book {
        Book {
            jungle,
            debate: fresh_debate(agent_a, agent_b, creator),
            debate_key,
            bets: Seq::empty(),
        }
    }

    /// What a bet is handed when the participant `who` places it.
    pub open spec fn bet_context(self, who: int, user: Pubkey) -> PlaceBet {
        PlaceBet {
            debate: self.debate,
            debate_key: self.debate_key,
            user_bet: self.bets[who],
            user,
        }
    }

    /// What a withdrawal is handed when the participant `who` asks for it.
    pub open spec fn withdrawal_context(self, who: int, user: Pubkey, authority: Pubkey) -> Withdraw {
        Withdraw { debate: self.debate, user_bet: self.bets[who], user, authority }
    }

    /// What a verdict is handed when `caller` declares it.
    pub open spec fn verdict_context(self, caller: Pubkey) -> FinalizeDebate {
        FinalizeDebate { debate: self.debate, authority: caller, jungle: self.jungle }
    }

    /// Whether a request is carried out: it names a participant who has
    /// joined, the operation accepts it, and the books can hold the result.
    pub open spec fn accepts(self, request: Move) -> bool {
        match request {
            Move::Join => true,
            Move::Bet { who, user, amount, on_agent_a } => {
                &&& 0 <= who < self.bets.len()
                &&& place_bet_refusal(self.bet_context(who, user)) is None
                &&& bet_fits(self.debate, self.bets[who], amount, on_agent_a)
            },
            Move::Withdrawal { who, user, authority, amount, on_agent_a } => {
                &&& 0 <= who < self.bets.len()
                &&& withdraw_refusal(
                    self.withdrawal_context(who, user, authority),
                    amount,
                    on_agent_a,
                ) is None
                &&& (!self.debate.finalized ==> amount <= self.debate.total_on(on_agent_a))
            },
            Move::Verdict { caller, winning_agent } => finalize_refusal(
                self.verdict_context(caller),
                winning_agent,
            ) is None,
        }
    }

    /// The books after a request: as the operation leaves them where the
    /// request is carried out, and untouched where it is not.
    pub open spec fn step(self, request: Move) -> Book {
        if !self.accepts(request) {
            self
        } else {
            match request {
                Move::Join => Book {
                    bets: self.bets.push(UserBet { amount_on_a: 0, amount_on_b: 0 }),
                    ..self
                },
                Move::Bet { who, user, amount, on_agent_a } => {
                    let after = after_bet(self.bet_context(who, user), amount, on_agent_a);
                    Book { debate: after.debate, bets: self.bets.update(who, after.user_bet), ..self }
                },
                Move::Withdrawal { who, user, authority, amount, on_agent_a } => {
                    let after = after_withdrawal(
                        self.withdrawal_context(who, user, authority),
                        amount,
                        on_agent_a,
                    );
                    Book { debate: after.debate, bets: self.bets.update(who, after.user_bet), ..self }
                },
                Move::Verdict { caller, winning_agent } => Book {
                    debate: debate_with_verdict(self.debate, winning_agent),
                    ..self
                },
            }
        }
    }

    /// The books after a series of requests, taken in order.
    pub open spec fn run(self, requests: Seq<Move>) -> Book
        decreases requests.len(),
    {
        if requests.len() == 0 {
            self
        } else {
            self.run(requests.drop_last()).step(requests.last())
        }
    }
}

/// A new position with nothing in it adds nothing to either sum.
proof fn lemma_staked_on_push(bets: Seq<UserBet>, bet: UserBet, on_agent_a: bool)
    ensures
        staked_on(bets.push(bet), on_agent_a) == staked_on(bets, on_agent_a) + bet.stake_on(
            on_agent_a,
        ),
{
    assert(bets.push(bet).drop_last() =~= bets);
}

/// Replacing one position changes the sum by the difference of the two.
proof fn lemma_staked_on_update(bets: Seq<UserBet>, who: int, bet: UserBet, on_agent_a: bool)
    requires
        0 <= who < bets.len(),
    ensures
        staked_on(bets.update(who, bet), on_agent_a) + bets[who].stake_on(on_agent_a) == staked_on(
            bets,
            on_agent_a,
        ) + bet.stake_on(on_agent_a),
    decreases bets.len(),
{
    let changed = bets.update(who, bet);
    if who == bets.len() - 1 {
        assert(changed.drop_last() =~= bets.drop_last());
    } else {
        lemma_staked_on_update(bets.drop_last(), who, bet, on_agent_a);
        assert(changed.drop_last() =~= bets.drop_last().update(who, bet));
    }
}

/// No position holds more on a side than all positions together.
pub proof fn lemma_position_within_sum(bets: Seq<UserBet>, who: int, on_agent_a: bool)
    requires
        0 <= who < bets.len(),
    ensures
        bets[who].stake_on(on_agent_a) <= staked_on(bets, on_agent_a),
    decreases bets.len(),
{
    if who < bets.len() - 1 {
        lemma_position_within_sum(bets.drop_last(), who, on_agent_a);
    }
}

/// In balanced books of an open debate, whatever a withdrawal accepts is
/// covered by the debate's total on that side.
pub proof fn lemma_balanced_covers_withdrawal(
    book: Book,
    who: int,
    user: Pubkey,
    authority: Pubkey,
    amount: u64,
    on_agent_a: bool,
)
    requires
        book.balanced(),
        !book.debate.finalized,
        0 <= who < book.bets.len(),
        withdraw_refusal(book.withdrawal_context(who, user, authority), amount, on_agent_a) is None,
    ensures
        amount <= book.debate.total_on(on_agent_a),
{
    lemma_position_within_sum(book.bets, who, on_agent_a);
}

/// The books of a debate that has just been opened are balanced.
pub proof fn lemma_opened_balanced(
    jungle: Jungle,
    debate_key: Pubkey,
    agent_a: Pubkey,
    agent_b: Pubkey,
    creator: Pubkey,
)
    ensures
        Book::opened(jungle, debate_key, agent_a, agent_b, creator).balanced(),
        !Book::opened(jungle, debate_key, agent_a, agent_b, creator).debate.finalized,
{
}

/// A request to an open debate that is still open afterwards leaves
/// balanced books balanced.
pub proof fn lemma_step_keeps_balance(book: Book, request: Move)
    requires
        book.balanced(),
        !book.step(request).debate.finalized,
    ensures
        book.step(request).balanced(),
{
    if book.accepts(request) {
        match request {
            Move::Join => {
                let empty = UserBet { amount_on_a: 0, amount_on_b: 0 };
                lemma_staked_on_push(book.bets, empty, true);
                lemma_staked_on_push(book.bets, empty, false);
            },
            Move::Bet { who, user, amount, on_agent_a } => {
                let after = after_bet(book.bet_context(who, user), amount, on_agent_a);
                lemma_staked_on_update(book.bets, who, after.user_bet, true);
                lemma_staked_on_update(book.bets, who, after.user_bet, false);
            },
            Move::Withdrawal { who, user, authority, amount, on_agent_a } => {
                let after = after_withdrawal(
                    book.withdrawal_context(who, user, authority),
                    amount,
                    on_agent_a,
                );
                lemma_staked_on_update(book.bets, who, after.user_bet, true);
                lemma_staked_on_update(book.bets, who, after.user_bet, false);
            },
            Move::Verdict { caller, winning_agent } => {},
        }
    }
}

/// No request takes a verdict back or changes the winner.
pub proof fn lemma_step_keeps_verdict(book: Book, request: Move)
    requires
        book.debate.finalized,
    ensures
        book.step(request).debate.finalized,
        book.step(request).debate.winning_agent == book.debate.winning_agent,
{
}

/// Once a debate has its verdict, no series of requests takes it back or
/// changes the winner.
pub proof fn lemma_verdict_stands(book: Book, requests: Seq<Move>)
    requires
        book.debate.finalized,
    ensures
        book.run(requests).debate.finalized,
        book.run(requests).debate.winning_agent == book.debate.winning_agent,
    decreases requests.len(),
{
    if requests.len() > 0 {
        lemma_verdict_stands(book, requests.drop_last());
        lemma_step_keeps_verdict(book.run(requests.drop_last()), requests.last());
    }
}

/// Conservation: after any series of requests that leaves the debate open,
/// balanced books are still balanced, so that the pool is what all the
/// participants together have at stake.
pub proof fn lemma_open_books_balance(book: Book, requests: Seq<Move>)
    requires
        book.balanced(),
        !book.run(requests).debate.finalized,
    ensures
        book.run(requests).balanced(),
        book.run(requests).debate.pool() == staked_on(book.run(requests).bets, true) + staked_on(
            book.run(requests).bets,
            false,
        ),
    decreases requests.len(),
{
    if requests.len() > 0 {
        let before = book.run(requests.drop_last());
        if before.debate.finalized {
            lemma_step_keeps_verdict(before, requests.last());
        }
        lemma_open_books_balance(book, requests.drop_last());
        lemma_step_keeps_balance(before, requests.last());
    }
}

/// Conservation from the start: whatever requests a debate has seen since
/// it was opened, as long as it is open its totals are the sums of the
/// positions.
pub proof fn lemma_balanced_since_opening(
    jungle: Jungle,
    debate_key: Pubkey,
    agent_a: Pubkey,
    agent_b: Pubkey,
    creator: Pubkey,
    requests: Seq<Move>,
)
    requires
        !Book::opened(jungle, debate_key, agent_a, agent_b, creator).run(
            requests,
        ).debate.finalized,
    ensures
        Book::opened(jungle, debate_key, agent_a, agent_b, creator).run(requests).balanced(),
{
    lemma_opened_balanced(jungle, debate_key, agent_a, agent_b, creator);
    lemma_open_books_balance(Book::opened(jungle, debate_key, agent_a, agent_b, creator), requests);
}

/// What all positions together are entitled to on one side.
pub open spec fn entitled_on(debate: Debate, bets: Seq<UserBet>, on_agent_a: bool) -> nat
    decreases bets.len(),
{
    if bets.len() == 0 {
        0
    } else {
        entitled_on(debate, bets.drop_last(), on_agent_a) + withdrawable(
            debate,
            bets.last(),
            on_agent_a,
        )
    }
}

/// Rounding two quotients down separately never gives more than rounding
/// their sum down.
proof fn lemma_quotients_add_up(x: int, y: int, d: int)
    requires
        0 <= x,
        0 <= y,
        0 < d,
    ensures
        x / d + y / d <= (x + y) / d,
{
    vstd::arithmetic::div_mod::lemma_fundamental_div_mod(x, d);
    vstd::arithmetic::div_mod::lemma_fundamental_div_mod(y, d);
    vstd::arithmetic::div_mod::lemma_mod_pos_bound(x, d);
    vstd::arithmetic::div_mod::lemma_mod_pos_bound(y, d);
    let first = x / d;
    let second = y / d;
    let whole = first + second;
    assert(d * whole == d * first + d * second) by (nonlinear_arith)
        requires
            whole == first + second,
    ;
    assert(d * whole <= x + y);
    vstd::arithmetic::div_mod::lemma_div_is_ordered(d * whole, x + y, d);
    vstd::arithmetic::div_mod::lemma_div_multiples_vanish(whole, d);
}

/// On a side that has not won, or on which nothing is recorded, nobody is
/// entitled to anything after the verdict.
proof fn lemma_nothing_owed(debate: Debate, bets: Seq<UserBet>, on_agent_a: bool)
    requires
        debate.finalized,
        !debate.won_by(on_agent_a) || debate.total_on(on_agent_a) == 0,
    ensures
        entitled_on(debate, bets, on_agent_a) == 0,
    decreases bets.len(),
{
    if bets.len() > 0 {
        lemma_nothing_owed(debate, bets.drop_last(), on_agent_a);
    }
}

/// The backers of the winner are together entitled to no more than the
/// share that their stakes taken together would give.
proof fn lemma_owed_within_joint_share(debate: Debate, bets: Seq<UserBet>, on_agent_a: bool)
    requires
        debate.finalized,
        debate.won_by(on_agent_a),
        debate.total_on(on_agent_a) > 0,
    ensures
        entitled_on(debate, bets, on_agent_a) <= ((staked_on(bets, on_agent_a) * debate.pool())
            as int) / (debate.total_on(on_agent_a) as int),
    decreases bets.len(),
{
    let pool = debate.pool() as int;
    let total = debate.total_on(on_agent_a) as int;
    if bets.len() > 0 {
        let before = staked_on(bets.drop_last(), on_agent_a) as int;
        let stake = bets.last().stake_on(on_agent_a) as int;
        lemma_owed_within_joint_share(debate, bets.drop_last(), on_agent_a);
        assert(0 <= before * pool && 0 <= stake * pool && (before + stake) * pool == before * pool
            + stake * pool) by (nonlinear_arith)
            requires
                0 <= before,
                0 <= stake,
                0 <= pool,
        ;
        lemma_quotients_add_up(before * pool, stake * pool, total);
        assert(withdrawable(debate, bets.last(), on_agent_a) <= (stake * pool) / total) by {
            if stake == 0 {
                vstd::arithmetic::div_mod::lemma_div_pos_is_pos(stake * pool, total);
            }
        }
    } else {
        assert(0 * pool == 0);
    }
}

/// Solvency: when the verdict falls on balanced books of a debate between
/// two different agents, all that the participants are entitled to, on both
/// sides together, is covered by the pool.
pub proof fn lemma_pool_covers_winnings(book: Book)
    requires
        book.debate.finalized,
        book.balanced(),
        book.debate.agent_a != book.debate.agent_b,
    ensures
        entitled_on(book.debate, book.bets, true) + entitled_on(book.debate, book.bets, false)
            <= book.debate.pool(),
{
    let debate = book.debate;
    let pool = debate.pool() as int;
    if debate.won_by(true) && debate.total_agent_a > 0 {
        lemma_nothing_owed(debate, book.bets, false);
        lemma_owed_within_joint_share(debate, book.bets, true);
        vstd::arithmetic::div_mod::lemma_div_multiples_vanish(pool, debate.total_agent_a as int);
        assert(debate.total_agent_a * pool == (debate.total_agent_a as int) * pool);
    } else if debate.won_by(false) && debate.total_agent_b > 0 {
        lemma_nothing_owed(debate, book.bets, true);
        lemma_owed_within_joint_share(debate, book.bets, false);
        vstd::arithmetic::div_mod::lemma_div_multiples_vanish(pool, debate.total_agent_b as int);
        assert(debate.total_agent_b * pool == (debate.total_agent_b as int) * pool);
    } else {
        lemma_nothing_owed(debate, book.bets, true);
        lemma_nothing_owed(debate, book.bets, false);
    }
}

/// Winnings are paid once: after an accepted withdrawal from a debate that
/// has its verdict, the same position entitles to nothing more, on either
/// side and whatever the amount.
pub proof fn lemma_winnings_are_paid_once(
    ctx: Withdraw,
    amount: u64,
    on_agent_a: bool,
    next_amount: u64,
    next_on_agent_a: bool,
)
    requires
        ctx.debate.finalized,
        withdraw_refusal(ctx, amount, on_agent_a) is None,
    ensures
        withdraw_refusal(after_withdrawal(ctx, amount, on_agent_a), next_amount, next_on_agent_a)
            == Some(CustomError::NoWinningsToWithdraw),
{
}

/// After an accepted verdict, a second one on the same debate is refused:
/// as a verdict on a finalized debate where the registry's operator asks
/// for it, and as unauthorized where anybody else does.
pub proof fn lemma_second_verdict_refused(
    ctx: FinalizeDebate,
    winning_agent: Pubkey,
    second_caller: Pubkey,
    second_winning_agent: Pubkey,
)
    requires
        finalize_refusal(ctx, winning_agent) is None,
    ensures
        finalize_refusal(
            FinalizeDebate {
                debate: debate_with_verdict(ctx.debate, winning_agent),
                authority: second_caller,
                jungle: ctx.jungle,
            },
            second_winning_agent,
        ) == Some(
            if second_caller == ctx.jungle.authority {
                CustomError::DebateAlreadyFinalized
            } else {
                CustomError::UnauthorizedAccess
            },
        ),
{
}

} // verus!
