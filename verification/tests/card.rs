use cribbage_engine::card::{Card, ParseError, Rank, Suit};
use cribbage_engine::engine::{build_deck, get_random_cards};

#[test]
fn parse_upper_case_ace_of_spades() {
    assert_eq!(
        Card::parse("AS"),
        Ok(Card {
            rank: Rank::Ace,
            suit: Suit::Spades,
        })
    );
}

#[test]
fn parse_lower_case_king_of_spades() {
    assert_eq!(
        Card::parse("ks"),
        Ok(Card {
            rank: Rank::King,
            suit: Suit::Spades,
        })
    );
}

#[test]
fn parse_rejects_unknown_characters() {
    assert_eq!(Card::parse("XZ"), Err(ParseError));
    assert_eq!(Card::parse("AX"), Err(ParseError));
    assert_eq!(Card::parse("Zs"), Err(ParseError));
}

#[test]
fn parse_rejects_under_length_input() {
    assert_eq!(Card::parse(""), Err(ParseError));
    assert_eq!(Card::parse("a"), Err(ParseError));
}

#[test]
fn parse_ignores_trailing_characters() {
    assert_eq!(
        Card::parse("10h"),
        Err(ParseError),
        "ten is written T, and 1 names no rank"
    );
    assert_eq!(
        Card::parse("th!"),
        Ok(Card {
            rank: Rank::Ten,
            suit: Suit::Hearts,
        })
    );
}

#[test]
fn parse_covers_every_rank_and_suit() {
    let ranks = [
        ('a', Rank::Ace),
        ('2', Rank::Two),
        ('3', Rank::Three),
        ('4', Rank::Four),
        ('5', Rank::Five),
        ('6', Rank::Six),
        ('7', Rank::Seven),
        ('8', Rank::Eight),
        ('9', Rank::Nine),
        ('t', Rank::Ten),
        ('j', Rank::Jack),
        ('q', Rank::Queen),
        ('k', Rank::King),
    ];
    let suits = [
        ('s', Suit::Spades),
        ('h', Suit::Hearts),
        ('c', Suit::Clubs),
        ('d', Suit::Diamonds),
    ];
    for (rc, rank) in ranks {
        for (sc, suit) in suits {
            let lower = format!("{}{}", rc, sc);
            let upper = lower.to_uppercase();
            assert_eq!(Card::parse(&lower), Ok(Card { rank, suit }));
            assert_eq!(Card::parse(&upper), Ok(Card { rank, suit }));
        }
    }
}

#[test]
fn rank_order_is_ace_low_king_high() {
    assert_eq!(Rank::Ace.order(), 0);
    assert_eq!(Rank::King.order(), 12);
    assert!(Rank::Ace.order() < Rank::Two.order());
    assert!(Rank::Ten.order() < Rank::Jack.order());
    assert!(Rank::Queen.order() < Rank::King.order());
}

#[test]
fn card_new_keeps_its_parts() {
    let card = Card::new(Rank::Five, Suit::Diamonds);
    assert_eq!(card.rank, Rank::Five);
    assert_eq!(card.suit, Suit::Diamonds);
}

#[test]
fn fresh_deck_holds_fifty_two_distinct_cards() {
    let deck = build_deck();
    assert_eq!(deck.len(), 52);
    for i in 0..deck.len() {
        for j in 0..deck.len() {
            if i != j {
                assert_ne!(deck[i], deck[j]);
            }
        }
    }
}

#[test]
fn every_shuffled_sample_is_duplicate_free() {
    for _ in 0..20 {
        let sample = get_random_cards(52);
        assert_eq!(sample.len(), 52);
        for i in 0..sample.len() {
            for j in 0..sample.len() {
                if i != j {
                    assert_ne!(sample[i], sample[j]);
                }
            }
        }
    }
    let pair = get_random_cards(2);
    assert_eq!(pair.len(), 2);
    assert_ne!(pair[0], pair[1]);
}
