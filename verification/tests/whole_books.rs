use ai_debate::{
    finalize_debate, initialize_debate, initialize_jungle, place_bet, withdraw, CustomError,
    Debate, FinalizeDebate, InitializeDebate, InitializeJungle, Jungle, PlaceBet, Pubkey, UserBet,
    Withdraw,
};

fn who(tag: u8) -> Pubkey {
    Pubkey::new_from_array([tag; 32])
}

fn stake(debate: &mut Debate, bet: &mut UserBet, user: Pubkey, amount: u64, on_a: bool) {
    let mut ctx = PlaceBet { debate: *debate, debate_key: who(50), user_bet: *bet, user };
    let moved = place_bet(&mut ctx, amount, on_a).expect("the debate is open");
    assert_eq!(moved.accounts[0].pubkey, user);
    assert_eq!(moved.accounts[1].pubkey, who(50));
    assert_eq!(moved.data[4..], amount.to_le_bytes());
    *debate = ctx.debate;
    *bet = ctx.user_bet;
}

fn take(
    debate: &mut Debate,
    bet: &mut UserBet,
    user: Pubkey,
    amount: u64,
    on_a: bool,
) -> Result<u64, CustomError> {
    let mut ctx = Withdraw { debate: *debate, user_bet: *bet, user, authority: debate.authority };
    let paid = withdraw(&mut ctx, amount, on_a)?;
    *debate = ctx.debate;
    *bet = ctx.user_bet;
    Ok(paid.user_amount + paid.fee)
}

fn opened() -> (Jungle, Debate) {
    let mut setup = InitializeJungle {
        jungle: Jungle { authority: Pubkey::default(), init_cost: 0 },
        authority: who(100),
    };
    initialize_jungle(&mut setup).expect("first set-up");
    let mut opening = InitializeDebate {
        debate: Debate {
            agent_a: Pubkey::default(),
            agent_b: Pubkey::default(),
            total_agent_a: 0,
            total_agent_b: 0,
            finalized: false,
            winning_agent: None,
            authority: Pubkey::default(),
        },
        user: who(101),
        jungle_authority: who(100),
        jungle: setup.jungle,
    };
    initialize_debate(&mut opening, who(1), who(2)).expect("the registry is set up");
    (setup.jungle, opening.debate)
}

fn assert_balanced(debate: &Debate, bets: &[UserBet]) {
    let on_a: u64 = bets.iter().map(|bet| bet.amount_on_a).sum();
    let on_b: u64 = bets.iter().map(|bet| bet.amount_on_b).sum();
    assert_eq!(debate.total_agent_a, on_a);
    assert_eq!(debate.total_agent_b, on_b);
    assert_eq!(debate.total_agent_a + debate.total_agent_b, on_a + on_b);
}

#[test]
fn totals_are_the_sums_of_the_positions_while_open() {
    let (_, mut debate) = opened();
    let mut bets = [UserBet::default(), UserBet::default(), UserBet::default()];
    assert_balanced(&debate, &bets);
    stake(&mut debate, &mut bets[0], who(10), 200, true);
    assert_balanced(&debate, &bets);
    stake(&mut debate, &mut bets[1], who(11), 70, false);
    assert_balanced(&debate, &bets);
    stake(&mut debate, &mut bets[2], who(12), 30, true);
    stake(&mut debate, &mut bets[2], who(12), 45, false);
    assert_balanced(&debate, &bets);
    assert_eq!(take(&mut debate, &mut bets[0], who(10), 150, true), Ok(150));
    assert_balanced(&debate, &bets);
    assert_eq!(
        take(&mut debate, &mut bets[1], who(11), 71, false),
        Err(CustomError::InsufficientBalance)
    );
    assert_balanced(&debate, &bets);
    assert_eq!(
        take(&mut debate, &mut bets[1], who(11), 1, true),
        Err(CustomError::NoWinningsToWithdraw)
    );
    assert_eq!(take(&mut debate, &mut bets[2], who(12), 45, false), Ok(45));
    assert_balanced(&debate, &bets);
    stake(&mut debate, &mut bets[0], who(10), 5, false);
    assert_balanced(&debate, &bets);
    assert_eq!(debate.total_agent_a, 80);
    assert_eq!(debate.total_agent_b, 75);
    assert_eq!(bets[0], UserBet { amount_on_a: 50, amount_on_b: 5 });
    assert_eq!(bets[1], UserBet { amount_on_a: 0, amount_on_b: 70 });
    assert_eq!(bets[2], UserBet { amount_on_a: 30, amount_on_b: 0 });
}

#[test]
fn verdict_stands_whatever_follows() {
    let (jungle, mut debate) = opened();
    let mut bets = [UserBet::default(), UserBet::default()];
    stake(&mut debate, &mut bets[0], who(10), 300, true);
    stake(&mut debate, &mut bets[1], who(11), 700, false);
    let mut verdict = FinalizeDebate { debate, authority: who(100), jungle };
    assert_eq!(finalize_debate(&mut verdict, who(1)), Ok(()));
    debate = verdict.debate;
    assert!(debate.finalized);
    assert_eq!(debate.winning_agent, Some(who(1)));

    let mut late = PlaceBet { debate, debate_key: who(50), user_bet: bets[1], user: who(11) };
    assert_eq!(place_bet(&mut late, 1, false), Err(CustomError::DebateAlreadyFinalized));
    assert_eq!(late.debate, debate);

    let mut again = FinalizeDebate { debate, authority: who(100), jungle };
    assert_eq!(finalize_debate(&mut again, who(2)), Err(CustomError::DebateAlreadyFinalized));
    assert_eq!(again.debate, debate);

    assert_eq!(take(&mut debate, &mut bets[0], who(10), 1000, true), Ok(1000));
    assert!(debate.finalized);
    assert_eq!(debate.winning_agent, Some(who(1)));
    assert_eq!(debate.total_agent_a, 300);
    assert_eq!(debate.total_agent_b, 700);
    assert_eq!(
        take(&mut debate, &mut bets[1], who(11), 1, false),
        Err(CustomError::NoWinningsToWithdraw)
    );
    assert!(debate.finalized);
    assert_eq!(debate.winning_agent, Some(who(1)));
}

#[test]
fn winners_together_never_get_more_than_the_pool() {
    let (jungle, mut debate) = opened();
    let mut bets = [UserBet::default(), UserBet::default(), UserBet::default(), UserBet::default()];
    stake(&mut debate, &mut bets[0], who(10), 1, true);
    stake(&mut debate, &mut bets[1], who(11), 1, true);
    stake(&mut debate, &mut bets[2], who(12), 1, true);
    stake(&mut debate, &mut bets[3], who(13), 7, false);
    let mut verdict = FinalizeDebate { debate, authority: who(100), jungle };
    assert_eq!(finalize_debate(&mut verdict, who(1)), Ok(()));
    debate = verdict.debate;
    let mut paid = 0;
    for (i, bet) in bets.iter_mut().enumerate() {
        let user = who(10 + i as u8);
        assert_eq!(
            take(&mut debate, bet, user, 4, true),
            if i < 3 { Err(CustomError::InsufficientBalance) } else {
                Err(CustomError::NoWinningsToWithdraw)
            }
        );
        if i < 3 {
            paid += take(&mut debate, bet, user, 3, true).expect("a winner");
            assert_eq!(
                take(&mut debate, bet, user, 1, true),
                Err(CustomError::NoWinningsToWithdraw)
            );
        }
    }
    assert_eq!(paid, 9);
    assert!(paid <= debate.total_agent_a + debate.total_agent_b);
}
