use vstd::prelude::*;
use vstd::string::*;
use crate::card::{Card, Rank, Suit};

verus! {

/// The glyph displayed for a rank: `A` for Ace, `10` for Ten, and the
/// usual court letters.
pub open spec fn spec_rank_glyph(r: Rank) -> Seq<char> {
    match r {
        Rank::Ace => "A"@,
        Rank::Two => "2"@,
        Rank::Three => "3"@,
        Rank::Four => "4"@,
        Rank::Five => "5"@,
        Rank::Six => "6"@,
        Rank::Seven => "7"@,
        Rank::Eight => "8"@,
        Rank::Nine => "9"@,
        Rank::Ten => "10"@,
        Rank::Jack => "J"@,
        Rank::Queen => "Q"@,
        Rank::King => "K"@,
    }
}

/// The glyph displayed for a suit.
pub open spec fn spec_suit_glyph(s: Suit) -> Seq<char> {
    match s {
        Suit::Spades => "♠"@,
        Suit::Hearts => "♡"@,
        Suit::Clubs => "♣"@,
        Suit::Diamonds => "♢"@,
    }
}

/// What `format_card` returns: the rank glyph followed by the suit glyph.
pub open spec fn spec_format_card(c: Card) -> Seq<char> {
    spec_rank_glyph(c.rank) + spec_suit_glyph(c.suit)
}

fn rank_glyph(r: Rank) -> (s: &'static str)
    ensures
        s@ == spec_rank_glyph(r),
{
    match r {
        Rank::Ace => "A",
        Rank::Two => "2",
        Rank::Three => "3",
        Rank::Four => "4",
        Rank::Five => "5",
        Rank::Six => "6",
        Rank::Seven => "7",
        Rank::Eight => "8",
        Rank::Nine => "9",
        Rank::Ten => "10",
        Rank::Jack => "J",
        Rank::Queen => "Q",
        Rank::King => "K",
    }
}

fn suit_glyph(s: Suit) -> (g: &'static str)
    ensures
        g@ == spec_suit_glyph(s),
{
    match s {
        Suit::Spades => "♠",
        Suit::Hearts => "♡",
        Suit::Clubs => "♣",
        Suit::Diamonds => "♢",
    }
}

/// Renders a card for display: its rank glyph followed by its suit glyph.
pub fn format_card(card: &Card) -> (s: String)
    ensures
        s@ == spec_format_card(*card),
{
    let rank_part = String::from_str(rank_glyph(card.rank));
    rank_part.concat(suit_glyph(card.suit))
}

} // verus!
