use cribbage_engine::card::{Card, Rank, Suit};
use cribbage_engine::format::format_card;

#[test]
fn formats_ace_of_spades() {
    let card = Card::new(Rank::Ace, Suit::Spades);
    assert_eq!(format_card(&card), "A♠");
}

#[test]
fn formats_ten_with_two_digits() {
    let card = Card::new(Rank::Ten, Suit::Diamonds);
    assert_eq!(format_card(&card), "10♢");
}

#[test]
fn formats_court_cards_and_suits() {
    assert_eq!(format_card(&Card::new(Rank::King, Suit::Hearts)), "K♡");
    assert_eq!(format_card(&Card::new(Rank::Queen, Suit::Clubs)), "Q♣");
    assert_eq!(format_card(&Card::new(Rank::Jack, Suit::Spades)), "J♠");
    assert_eq!(format_card(&Card::new(Rank::Two, Suit::Diamonds)), "2♢");
}
