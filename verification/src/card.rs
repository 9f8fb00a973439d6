use vstd::prelude::*;
use vstd::string::*;

verus! {

/// Error signalled when a textual card code cannot be parsed.
/// It deliberately carries no detail: the caller only needs to know
/// that the code was rejected.
#[derive(Clone, Copy, Debug, PartialEq, Eq, Structural)]
pub struct ParseError;

/// The thirteen card ranks, totally ordered by declaration:
/// Ace is the low end, King the high end.
#[derive(Clone, Copy, Debug, PartialEq, Eq, Structural)]
pub enum Rank {
    Ace,
    Two,
    Three,
    Four,
    Five,
    Six,
    Seven,
    Eight,
    Nine,
    Ten,
    Jack,
    Queen,
    King,
}

impl Rank {
    /// Position of the rank in the total order: Ace is 0 (lowest),
    /// King is 12 (highest).
    pub open spec fn ord_spec(self) -> int {
        match self {
            Rank::Ace => 0,
            Rank::Two => 1,
            Rank::Three => 2,
            Rank::Four => 3,
            Rank::Five => 4,
            Rank::Six => 5,
            Rank::Seven => 6,
            Rank::Eight => 7,
            Rank::Nine => 8,
            Rank::Ten => 9,
            Rank::Jack => 10,
            Rank::Queen => 11,
            Rank::King => 12,
        }
    }

    /// Ordinal of the rank, used wherever two ranks are compared.
    pub fn order(&self) -> (n: u8)
        ensures
            n as int == self.ord_spec(),
    {
        match self {
            Rank::Ace => 0,
            Rank::Two => 1,
            Rank::Three => 2,
            Rank::Four => 3,
            Rank::Five => 4,
            Rank::Six => 5,
            Rank::Seven => 6,
            Rank::Eight => 7,
            Rank::Nine => 8,
            Rank::Ten => 9,
            Rank::Jack => 10,
            Rank::Queen => 11,
            Rank::King => 12,
        }
    }
}

/// Distinct ranks occupy distinct positions in the rank order.
pub proof fn lemma_rank_order_injective(a: Rank, b: Rank)
    requires
        a != b,
    ensures
        a.ord_spec() != b.ord_spec(),
{
}

/// What `Rank::parse` returns for each character code.
pub open spec fn spec_parse_rank(c: char) -> Result<Rank, ParseError> {
    if c == 'a' || c == 'A' {
        Ok(Rank::Ace)
    } else if c == '2' {
        Ok(Rank::Two)
    } else if c == '3' {
        Ok(Rank::Three)
    } else if c == '4' {
        Ok(Rank::Four)
    } else if c == '5' {
        Ok(Rank::Five)
    } else if c == '6' {
        Ok(Rank::Six)
    } else if c == '7' {
        Ok(Rank::Seven)
    } else if c == '8' {
        Ok(Rank::Eight)
    } else if c == '9' {
        Ok(Rank::Nine)
    } else if c == 't' || c == 'T' {
        Ok(Rank::Ten)
    } else if c == 'j' || c == 'J' {
        Ok(Rank::Jack)
    } else if c == 'q' || c == 'Q' {
        Ok(Rank::Queen)
    } else if c == 'k' || c == 'K' {
        Ok(Rank::King)
    } else {
        Err(ParseError)
    }
}

impl Rank {
    /// Maps a rank character, case-insensitively, to its rank:
    /// `A,2,3,4,5,6,7,8,9,T,J,Q,K`. Every other character is rejected.
    pub fn parse(c: char) -> (r: Result<Rank, ParseError>)
        ensures
            r == spec_parse_rank(c),
    {
        match c {
            'a' | 'A' => Ok(Rank::Ace),
            '2' => Ok(Rank::Two),
            '3' => Ok(Rank::Three),
            '4' => Ok(Rank::Four),
            '5' => Ok(Rank::Five),
            '6' => Ok(Rank::Six),
            '7' => Ok(Rank::Seven),
            '8' => Ok(Rank::Eight),
            '9' => Ok(Rank::Nine),
            't' | 'T' => Ok(Rank::Ten),
            'j' | 'J' => Ok(Rank::Jack),
            'q' | 'Q' => Ok(Rank::Queen),
            'k' | 'K' => Ok(Rank::King),
            _ => Err(ParseError),
        }
    }
}

/// The four suits. Suits have equality only: no order, and no effect
/// on dealer determination.
#[derive(Clone, Copy, Debug, PartialEq, Eq, Structural)]
pub enum Suit {
    Spades,
    Hearts,
    Clubs,
    Diamonds,
}

/// What `Suit::parse` returns for each character code.
pub open spec fn spec_parse_suit(c: char) -> Result<Suit, ParseError> {
    if c == 's' || c == 'S' {
        Ok(Suit::Spades)
    } else if c == 'h' || c == 'H' {
        Ok(Suit::Hearts)
    } else if c == 'c' || c == 'C' {
        Ok(Suit::Clubs)
    } else if c == 'd' || c == 'D' {
        Ok(Suit::Diamonds)
    } else {
        Err(ParseError)
    }
}

impl Suit {
    /// Maps a suit character, case-insensitively, to its suit:
    /// `S,H,C,D`. Every other character is rejected.
    pub fn parse(c: char) -> (r: Result<Suit, ParseError>)
        ensures
            r == spec_parse_suit(c),
    {
        match c {
            's' | 'S' => Ok(Suit::Spades),
            'h' | 'H' => Ok(Suit::Hearts),
            'c' | 'C' => Ok(Suit::Clubs),
            'd' | 'D' => Ok(Suit::Diamonds),
            _ => Err(ParseError),
        }
    }
}

/// A playing card: a (rank, suit) pair with structural equality.
/// Cards are not ordered; only the rank is compared where an order
/// is needed.
#[derive(Clone, Copy, Debug, PartialEq, Eq, Structural)]
pub struct Card {
    pub rank: Rank,
    pub suit: Suit,
}

/// What `Card::parse` returns: the first character names the rank, the
/// second the suit; anything shorter than two characters is rejected,
/// as is either character falling outside its table.
pub open spec fn spec_parse_card(s: Seq<char>) -> Result<Card, ParseError> {
    if s.len() < 2 {
        Err(ParseError)
    } else {
        match (spec_parse_rank(s[0]), spec_parse_suit(s[1])) {
            (Ok(rank), Ok(suit)) => Ok(Card { rank, suit }),
            _ => Err(ParseError),
        }
    }
}

impl Card {
    pub fn new(rank: Rank, suit: Suit) -> (c: Card)
        ensures
            c == (Card { rank, suit }),
    {
        Card { rank, suit }
    }

    /// Parses a two-character code, case-insensitively: rank character,
    /// then suit character. Under-length input yields `Err` rather than
    /// aborting; characters past the second are ignored.
    pub fn parse(code: &str) -> (r: Result<Card, ParseError>)
        ensures
            r == spec_parse_card(code@),
    {
        if code.unicode_len() < 2 {
            return Err(ParseError);
        }
        let rank_char = code.get_char(0);
        let suit_char = code.get_char(1);
        match (Rank::parse(rank_char), Suit::parse(suit_char)) {
            (Ok(rank), Ok(suit)) => Ok(Card::new(rank, suit)),
            _ => Err(ParseError),
        }
    }
}

} // verus!
