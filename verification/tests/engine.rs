use cribbage_engine::card::Card;
use cribbage_engine::engine::{new_engine, EngineState, GameData, Player, Start};

#[test]
fn test_chooses_correct_dealer() {
    for (cards, dealer, current_player) in [
        (
            [Card::parse("as").unwrap(), Card::parse("ks").unwrap()],
            Player::First,
            Player::Second,
        ),
        (
            [Card::parse("ks").unwrap(), Card::parse("as").unwrap()],
            Player::Second,
            Player::First,
        ),
    ] {
        let start = Start::with_cards(cards[0], cards[1]);
        if let EngineState::DealerChosen(result) = start.choose_dealer() {
            assert_eq!(*result.cut_cards.get(Player::First), cards[0]);
            assert_eq!(*result.cut_cards.get(Player::Second), cards[1]);
            assert_eq!(result.game_data.dealer, dealer);
            assert_eq!(result.game_data.current_player, current_player);
            assert_eq!(*result.game_data.scores.get(Player::First), 0);
            assert_eq!(*result.game_data.scores.get(Player::Second), 0);
        } else {
            panic!("Game moved to incorrect state!");
        }
    }
}

#[test]
fn player_rotation_alternates() {
    assert_eq!(Player::First.next(), Player::Second);
    assert_eq!(Player::Second.next(), Player::First);
}

#[test]
fn game_data_starts_with_other_player_and_zero_scores() {
    let data = GameData::new(Player::First);
    assert_eq!(data.dealer, Player::First);
    assert_eq!(data.current_player, Player::Second);
    assert_eq!(*data.scores.get(Player::First), 0);
    assert_eq!(*data.scores.get(Player::Second), 0);

    let data = GameData::new(Player::Second);
    assert_eq!(data.dealer, Player::Second);
    assert_eq!(data.current_player, Player::First);
    assert_eq!(*data.scores.get(Player::First), 0);
    assert_eq!(*data.scores.get(Player::Second), 0);
}

#[test]
fn new_engine_starts_at_new_game() {
    let engine = new_engine();
    assert!(matches!(engine, EngineState::NewGame(_)));
}

#[test]
fn repeated_cuts_never_share_a_rank() {
    for _ in 0..200 {
        let engine = new_engine();
        let start = match engine {
            EngineState::NewGame(start) => start,
            EngineState::DealerChosen(_) => panic!("Game moved to incorrect state!"),
        };
        let state = start.choose_dealer();
        match state {
            EngineState::DealerChosen(result) => {
                let first = result.cut_cards.get(Player::First);
                let second = result.cut_cards.get(Player::Second);
                assert_ne!(first.rank, second.rank);
            }
            EngineState::NewGame(_) => panic!("Game moved to incorrect state!"),
        }
    }
}

#[test]
fn dealer_always_holds_lower_ranked_card() {
    for _ in 0..200 {
        let engine = new_engine();
        if let EngineState::NewGame(start) = engine {
            if let EngineState::DealerChosen(result) = start.choose_dealer() {
                let dealer = result.game_data.dealer;
                let dealer_card = result.cut_cards.get(dealer);
                let other_card = result.cut_cards.get(dealer.next());
                assert!(dealer_card.rank.order() < other_card.rank.order());
                assert_eq!(result.game_data.current_player, dealer.next());
                assert_eq!(*result.game_data.scores.get(Player::First), 0);
                assert_eq!(*result.game_data.scores.get(Player::Second), 0);
            }
        }
    }
}
