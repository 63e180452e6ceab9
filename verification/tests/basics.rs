use solana_poker::address::Address;
use solana_poker::bits::{bit_is_set, count_ones};
use solana_poker::constants::{
    BIG_BLIND_MULTIPLIER, COMMUNITY_CARDS, HOLE_CARDS_PER_PLAYER, MAX_PLAYERS, MIN_PLAYERS,
    SMALL_BLIND_MULTIPLIER, TOTAL_CARDS_NEEDED,
};
use solana_poker::error::{ErrorKind, PokerError};
use solana_poker::handle::EncryptedHandle;
use solana_poker::state::poker_game::permutation_holds;
use solana_poker::state::{GameStage, SimpleStage};

#[test]
fn constants_have_their_values() {
    assert_eq!(MAX_PLAYERS, 5);
    assert_eq!(MIN_PLAYERS, 2);
    assert_eq!(HOLE_CARDS_PER_PLAYER, 2);
    assert_eq!(COMMUNITY_CARDS, 5);
    assert_eq!(TOTAL_CARDS_NEEDED, 15);
    assert_eq!(SMALL_BLIND_MULTIPLIER, 1);
    assert_eq!(BIG_BLIND_MULTIPLIER, 2);
}

#[test]
fn stage_sequence() {
    assert_eq!(GameStage::Waiting.next(), Some(GameStage::PreFlop));
    assert_eq!(GameStage::PreFlop.next(), Some(GameStage::Flop));
    assert_eq!(GameStage::Flop.next(), Some(GameStage::Turn));
    assert_eq!(GameStage::Turn.next(), Some(GameStage::River));
    assert_eq!(GameStage::River.next(), Some(GameStage::Showdown));
    assert_eq!(GameStage::Showdown.next(), Some(GameStage::Finished));
    assert_eq!(GameStage::Finished.next(), None);
}

#[test]
fn stage_ordinals() {
    let all = [
        GameStage::Waiting,
        GameStage::PreFlop,
        GameStage::Flop,
        GameStage::Turn,
        GameStage::River,
        GameStage::Showdown,
        GameStage::Finished,
    ];
    for (i, s) in all.iter().enumerate() {
        assert_eq!(s.ordinal() as usize, i);
        if let Some(n) = s.next() {
            assert_eq!(n.ordinal(), s.ordinal() + 1);
        }
    }
    assert_eq!(GameStage::default(), GameStage::Waiting);
}

#[test]
fn stage_community_cards() {
    assert_eq!(GameStage::Waiting.community_cards_to_reveal(), 0);
    assert_eq!(GameStage::PreFlop.community_cards_to_reveal(), 0);
    assert_eq!(GameStage::Flop.community_cards_to_reveal(), 3);
    assert_eq!(GameStage::Turn.community_cards_to_reveal(), 4);
    assert_eq!(GameStage::River.community_cards_to_reveal(), 5);
    assert_eq!(GameStage::Showdown.community_cards_to_reveal(), 0);
    assert_eq!(GameStage::Finished.community_cards_to_reveal(), 0);
}

#[test]
fn stage_playable_and_simple() {
    assert!(!GameStage::Waiting.is_playable());
    assert!(!GameStage::Finished.is_playable());
    for s in [
        GameStage::PreFlop,
        GameStage::Flop,
        GameStage::Turn,
        GameStage::River,
        GameStage::Showdown,
    ] {
        assert!(s.is_playable());
        assert_eq!(s.simple(), SimpleStage::Playing);
    }
    assert_eq!(GameStage::Waiting.simple(), SimpleStage::Waiting);
    assert_eq!(GameStage::Finished.simple(), SimpleStage::Finished);
}

#[test]
fn bits_of_a_mask() {
    assert!(bit_is_set(0b0000_0101, 0));
    assert!(!bit_is_set(0b0000_0101, 1));
    assert!(bit_is_set(0b0000_0101, 2));
    assert!(bit_is_set(0b1000_0000, 7));
    assert!(!bit_is_set(0b1111_1111, 8));
    assert!(!bit_is_set(0b1111_1111, 200));
}

#[test]
fn count_ones_matches_std() {
    for m in 0u8..=255 {
        assert_eq!(count_ones(m) as u32, m.count_ones());
    }
}

#[test]
fn error_kinds() {
    assert_eq!(PokerError::NotAdmin.kind(), ErrorKind::Authorization);
    assert_eq!(PokerError::NotBackend.kind(), ErrorKind::Authorization);
    assert_eq!(PokerError::FrontendAccountNotSet.kind(), ErrorKind::Authorization);
    assert_eq!(PokerError::InvalidBuyIn.kind(), ErrorKind::Capacity);
    assert_eq!(PokerError::TableFull.kind(), ErrorKind::Capacity);
    assert_eq!(PokerError::InsufficientChips.kind(), ErrorKind::Ledger);
    assert_eq!(PokerError::InvalidBetAmount.kind(), ErrorKind::Ledger);
    assert_eq!(PokerError::VaultOutOfRange.kind(), ErrorKind::Ledger);
    assert_eq!(PokerError::PlayerNotAtTable.kind(), ErrorKind::Integrity);
    assert_eq!(PokerError::InvalidSeatIndex.kind(), ErrorKind::Integrity);
    assert_eq!(PokerError::InvalidBatchIndex.kind(), ErrorKind::Integrity);
    assert_eq!(PokerError::InvalidCardCount.kind(), ErrorKind::Integrity);
    assert_eq!(PokerError::MissingAllowanceAccounts.kind(), ErrorKind::Integrity);
    assert_eq!(PokerError::InvalidRefundAccounts.kind(), ErrorKind::Integrity);
    assert_eq!(PokerError::InconsistentState.kind(), ErrorKind::Integrity);
    assert_eq!(PokerError::HandleNotInitialized.kind(), ErrorKind::ConfidentialOp);
    for e in [
        PokerError::NotEnoughPlayers,
        PokerError::GameInProgress,
        PokerError::NoActiveGame,
        PokerError::NotYourTurn,
        PokerError::PlayerFolded,
        PokerError::PlayerAlreadyActed,
        PokerError::BettingNotComplete,
        PokerError::InvalidGameStage,
        PokerError::CardsNotSubmitted,
        PokerError::CardsNotProcessed,
        PokerError::SeatTaken,
        PokerError::PlayerAlreadySeated,
        PokerError::CannotLeaveDuringGame,
        PokerError::GameNotFinished,
        PokerError::CannotCheck,
        PokerError::RaiseTooSmall,
        PokerError::WinnerNotDetermined,
        PokerError::BlindsAlreadyPosted,
        PokerError::CardsAlreadyProcessed,
        PokerError::AlreadySettled,
        PokerError::WrongMode,
    ] {
        assert_eq!(e.kind(), ErrorKind::State);
    }
}

#[test]
fn address_equality_and_zero() {
    let a = Address::new([7; 32]);
    let mut bytes = [7u8; 32];
    let b = Address::new(bytes);
    assert!(a == b);
    bytes[31] = 8;
    let c = Address::new(bytes);
    assert!(a != c);
    assert!(Address::zero().is_zero());
    assert!(!a.is_zero());
    assert!(!c.is_zero());
    assert_eq!(Address::zero().to_bytes(), [0u8; 32]);
    assert_eq!(a.to_bytes(), [7u8; 32]);
    assert_eq!(c.to_vec(), bytes.to_vec());
}

#[test]
fn handle_wraps_and_unwraps() {
    let h = EncryptedHandle::wrap(42);
    assert_eq!(h.unwrap(), 42);
    assert!(h.is_initialized());
    assert_eq!(EncryptedHandle::empty().unwrap(), 0);
    assert!(!EncryptedHandle::empty().is_initialized());
    assert_eq!(EncryptedHandle::wrap(0), EncryptedHandle::empty());
    assert_eq!(EncryptedHandle::wrap(u128::MAX).unwrap(), u128::MAX);
}

#[test]
fn permutations_are_recognised() {
    assert!(permutation_holds(&[0, 1, 2, 3, 4]));
    assert!(permutation_holds(&[4, 3, 2, 1, 0]));
    assert!(permutation_holds(&[2, 3, 0, 1, 4]));
    assert!(!permutation_holds(&[0, 1, 2, 3, 3]));
    assert!(!permutation_holds(&[0, 0, 0, 0, 0]));
    assert!(!permutation_holds(&[0, 1, 2, 3, 5]));
    assert!(!permutation_holds(&[1, 2, 3, 4, 5]));
}
