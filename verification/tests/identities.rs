use ai_debate::{CustomError, Jungle, Pubkey, UserBet, DEFAULT_INIT_COST};

#[test]
fn identities_are_equal_when_all_bytes_agree() {
    let mut bytes = [7u8; 32];
    let a = Pubkey::new_from_array(bytes);
    let b = Pubkey::new_from_array(bytes);
    assert!(a == b);
    bytes[31] = 8;
    let c = Pubkey::new_from_array(bytes);
    assert!(a != c);
    bytes[31] = 7;
    bytes[0] = 0;
    let d = Pubkey::new_from_array(bytes);
    assert!(a != d);
}

#[test]
fn identity_keeps_its_bytes() {
    let mut bytes = [0u8; 32];
    for (i, byte) in bytes.iter_mut().enumerate() {
        *byte = i as u8;
    }
    assert_eq!(Pubkey::new_from_array(bytes).to_bytes(), bytes);
    assert_eq!(Pubkey::new_from_array(bytes).bytes, bytes);
}

#[test]
fn default_identity_is_all_zero() {
    assert_eq!(Pubkey::default().to_bytes(), [0u8; 32]);
    assert!(Pubkey::default() == Pubkey::new_from_array([0u8; 32]));
}

#[test]
fn identities_agree_with_solana_public_keys() {
    let theirs = anchor_lang::prelude::Pubkey::default();
    assert_eq!(Pubkey::default().to_bytes(), theirs.to_bytes());
    let unique = anchor_lang::prelude::Pubkey::new_unique();
    let other = anchor_lang::prelude::Pubkey::new_unique();
    let ours = Pubkey::new_from_array(unique.to_bytes());
    assert_eq!(
        anchor_lang::prelude::Pubkey::new_from_array(ours.to_bytes()),
        unique
    );
    assert_eq!(
        ours == Pubkey::new_from_array(other.to_bytes()),
        unique == other
    );
    assert_eq!(
        ours == Pubkey::new_from_array(unique.to_bytes()),
        unique == unique
    );
}

#[test]
fn registry_counts_as_set_up_once_it_names_an_operator() {
    let unset = Jungle { authority: Pubkey::default(), init_cost: 5 };
    assert!(!unset.is_initialized());
    let mut bytes = [0u8; 32];
    bytes[17] = 1;
    let set = Jungle { authority: Pubkey::new_from_array(bytes), init_cost: 0 };
    assert!(set.is_initialized());
}

#[test]
fn new_position_is_empty() {
    let bet = UserBet::default();
    assert_eq!(bet.amount_on_a, 0);
    assert_eq!(bet.amount_on_b, 0);
}

#[test]
fn default_opening_fee() {
    assert_eq!(DEFAULT_INIT_COST, 100_000_000);
}

#[test]
fn every_refusal_has_its_message() {
    assert_eq!(
        CustomError::DebateAlreadyFinalized.message(),
        "Debate has already been finalized"
    );
    assert_eq!(CustomError::InvalidWinningAgent.message(), "The winning agent is invalid");
    assert_eq!(
        CustomError::InsufficientBalance.message(),
        "Insufficient balance for withdrawal"
    );
    assert_eq!(CustomError::NoWinningsToWithdraw.message(), "No winnings to withdraw");
    assert_eq!(CustomError::UnauthorizedAccess.message(), "Unauthorized access");
    assert_eq!(CustomError::JungleNotInitialized.message(), "Jungle not initialized");
    assert_eq!(
        CustomError::JungleAlreadyInitialized.message(),
        "Jungle already initialized"
    );
    assert_eq!(CustomError::InvariantViolation.message(), "Winning agent has no stake");
}
