use vstd::prelude::*;
use vstd::arithmetic::div_mod::lemma_fundamental_div_mod;
use rand::seq::SliceRandom;
use crate::card::{Card, Rank, Suit};

verus! {

/// The two sides of the match. `First` is the human player, `Second`
/// the opposing side.
#[derive(Clone, Copy, Hash, PartialEq, Eq, Structural, Debug)]
pub enum Player {
    First,
    Second,
}

impl Player {
    /// The player whose turn follows this one.
    pub open spec fn spec_next(self) -> Player {
        match self {
            Player::First => Player::Second,
            Player::Second => Player::First,
        }
    }

    /// Round-robin rotation: `First` and `Second` alternate.
    pub fn next(&self) -> (p: Player)
        ensures
            p == self.spec_next(),
    {
        match self {
            Player::First => Player::Second,
            Player::Second => Player::First,
        }
    }
}

/// A pair of values keyed by player.
pub struct PerPlayer<T> {
    pub first: T,
    pub second: T,
}

impl<T> PerPlayer<T> {
    /// The value held for a player.
    pub open spec fn spec_get(self, player: Player) -> T {
        match player {
            Player::First => self.first,
            Player::Second => self.second,
        }
    }

    pub fn get(&self, player: Player) -> (value: &T)
        ensures
            *value == self.spec_get(player),
    {
        match player {
            Player::First => &self.first,
            Player::Second => &self.second,
        }
    }
}

/// The rank placed at a given row of the unshuffled deck, in rank order.
pub open spec fn spec_rank_of_index(i: int) -> Rank {
    if i == 0 {
        Rank::Ace
    } else if i == 1 {
        Rank::Two
    } else if i == 2 {
        Rank::Three
    } else if i == 3 {
        Rank::Four
    } else if i == 4 {
        Rank::Five
    } else if i == 5 {
        Rank::Six
    } else if i == 6 {
        Rank::Seven
    } else if i == 7 {
        Rank::Eight
    } else if i == 8 {
        Rank::Nine
    } else if i == 9 {
        Rank::Ten
    } else if i == 10 {
        Rank::Jack
    } else if i == 11 {
        Rank::Queen
    } else {
        Rank::King
    }
}

/// The suit placed at a given column of the unshuffled deck.
pub open spec fn spec_suit_of_index(i: int) -> Suit {
    if i == 0 {
        Suit::Spades
    } else if i == 1 {
        Suit::Hearts
    } else if i == 2 {
        Suit::Diamonds
    } else {
        Suit::Clubs
    }
}

/// Position of a suit in the deck's construction order.
pub open spec fn spec_suit_index(s: Suit) -> int {
    match s {
        Suit::Spades => 0,
        Suit::Hearts => 1,
        Suit::Diamonds => 2,
        Suit::Clubs => 3,
    }
}

/// The card at a given position of the canonical unshuffled deck,
/// laid out by rank, then by suit.
pub open spec fn spec_deck_card(i: int) -> Card {
    Card { rank: spec_rank_of_index(i / 4), suit: spec_suit_of_index(i % 4) }
}

fn rank_of_index(i: usize) -> (r: Rank)
    requires
        i < 13,
    ensures
        r == spec_rank_of_index(i as int),
{
    if i == 0 {
        Rank::Ace
    } else if i == 1 {
        Rank::Two
    } else if i == 2 {
        Rank::Three
    } else if i == 3 {
        Rank::Four
    } else if i == 4 {
        Rank::Five
    } else if i == 5 {
        Rank::Six
    } else if i == 6 {
        Rank::Seven
    } else if i == 7 {
        Rank::Eight
    } else if i == 8 {
        Rank::Nine
    } else if i == 9 {
        Rank::Ten
    } else if i == 10 {
        Rank::Jack
    } else if i == 11 {
        Rank::Queen
    } else {
        Rank::King
    }
}

fn suit_of_index(i: usize) -> (s: Suit)
    requires
        i < 4,
    ensures
        s == spec_suit_of_index(i as int),
{
    if i == 0 {
        Suit::Spades
    } else if i == 1 {
        Suit::Hearts
    } else if i == 2 {
        Suit::Diamonds
    } else {
        Suit::Clubs
    }
}

/// Two distinct positions of the canonical deck hold distinct cards.
proof fn lemma_deck_card_injective(a: int, b: int)
    requires
        0 <= a < 52,
        0 <= b < 52,
        a != b,
    ensures
        spec_deck_card(a) != spec_deck_card(b),
{
    lemma_fundamental_div_mod(a, 4);
    lemma_fundamental_div_mod(b, 4);
    if a / 4 == b / 4 && a % 4 == b % 4 {
        assert(false);
    }
}

/// Builds the canonical 52-card deck: every (rank, suit) pair exactly
/// once, in deterministic order (by rank, then by suit).
pub fn build_deck() -> (deck: Vec<Card>)
    ensures
        deck@.len() == 52,
        forall|i: int| 0 <= i < 52 ==> deck@[i] == spec_deck_card(i),
        deck@.no_duplicates(),
        forall|c: Card| deck@.contains(c),
{
    let mut deck: Vec<Card> = Vec::new();
    let mut i: usize = 0;
    while i < 52
        invariant
            i <= 52,
            deck@.len() == i as int,
            forall|k: int| 0 <= k < i ==> deck@[k] == spec_deck_card(k),
        decreases 52 - i,
    {
        let rank = rank_of_index(i / 4);
        let suit = suit_of_index(i % 4);
        deck.push(Card::new(rank, suit));
        i = i + 1;
    }
    proof {
        assert forall|a: int, b: int|
            0 <= a < deck@.len() && 0 <= b < deck@.len() && a != b implies deck@[a]
            != deck@[b] by {
            lemma_deck_card_injective(a, b);
        }
        assert forall|c: Card| deck@.contains(c) by {
            let pos = 4 * c.rank.ord_spec() + spec_suit_index(c.suit);
            assert(pos / 4 == c.rank.ord_spec() && pos % 4 == spec_suit_index(c.suit))
                by (nonlinear_arith)
                requires
                    0 <= c.rank.ord_spec() < 13,
                    0 <= spec_suit_index(c.suit) < 4,
                    pos == 4 * c.rank.ord_spec() + spec_suit_index(c.suit),
            ;
            assert(0 <= pos < 52);
            assert(spec_rank_of_index(c.rank.ord_spec()) == c.rank);
            assert(spec_suit_of_index(spec_suit_index(c.suit)) == c.suit);
            assert(spec_deck_card(pos) == c);
            assert(deck@[pos] == spec_deck_card(pos));
        }
    }
    deck
}

/// Relies on rand's `SliceRandom::shuffle`: it permutes the slice in
/// place (the permutation is picked uniformly at random by the
/// thread-local generator), so the cards afterwards are exactly the
/// cards before, reordered.
#[verifier::external_body]
fn shuffle_cards(cards: &mut Vec<Card>)
    ensures
        final(cards)@.len() == old(cards)@.len(),
        final(cards)@.to_multiset() == old(cards)@.to_multiset(),
{
    cards.shuffle(&mut rand::rng());
}

/// Among the top five cards of a deck with no repeated (rank, suit)
/// pair, some card below the top differs from the top card in rank:
/// at most four distinct cards can share one rank, one per suit.
proof fn lemma_top_five_hold_two_ranks(deck: Seq<Card>)
    requires
        deck.len() >= 5,
        deck.no_duplicates(),
    ensures
        exists|k: int| 1 <= k < 5 && (#[trigger] deck[k]).rank != deck[0].rank,
{
    if deck[1].rank != deck[0].rank {
        assert(1 <= 1 < 5 && deck[1].rank != deck[0].rank);
    } else if deck[2].rank != deck[0].rank {
        assert(1 <= 2 < 5 && deck[2].rank != deck[0].rank);
    } else if deck[3].rank != deck[0].rank {
        assert(1 <= 3 < 5 && deck[3].rank != deck[0].rank);
    } else if deck[4].rank != deck[0].rank {
        assert(1 <= 4 < 5 && deck[4].rank != deck[0].rank);
    } else {
        // All five cards would share one rank and so would have to carry
        // five pairwise distinct suits; only four suits exist.
        assert(deck[0] != deck[1] && deck[0] != deck[2] && deck[0] != deck[3] && deck[0]
            != deck[4]);
        assert(deck[1] != deck[2] && deck[1] != deck[3] && deck[1] != deck[4]);
        assert(deck[2] != deck[3] && deck[2] != deck[4]);
        assert(deck[3] != deck[4]);
        assert(false);
    }
}

/// A sequence drawn from one holding no repeated cards holds none
/// either when both hold the same cards.
proof fn lemma_no_duplicates_preserved(a: Seq<Card>, b: Seq<Card>)
    requires
        a.no_duplicates(),
        a.to_multiset() == b.to_multiset(),
    ensures
        b.no_duplicates(),
{
    a.lemma_multiset_has_no_duplicates();
    b.lemma_multiset_has_no_duplicates_conv();
}

/// Draws `num_cards` cards from a freshly shuffled 52-card deck,
/// without replacement: the sample never repeats a (rank, suit) pair.
pub fn get_random_cards(num_cards: usize) -> (cards: Vec<Card>)
    requires
        num_cards <= 52,
    ensures
        cards@.len() == num_cards as int,
        cards@.no_duplicates(),
{
    let mut deck = build_deck();
    let ghost built = deck@;
    shuffle_cards(&mut deck);
    proof {
        lemma_no_duplicates_preserved(built, deck@);
    }
    let ghost shuffled = deck@;
    deck.truncate(num_cards);
    proof {
        assert forall|i: int, j: int|
            0 <= i < deck@.len() && 0 <= j < deck@.len() && i != j implies deck@[i]
            != deck@[j] by {
            assert(deck@[i] == shuffled[i] && deck@[j] == shuffled[j]);
        }
    }
    deck
}

/// The player who deals, given the two cut cards in draw order: the
/// holder of the strictly lower-ranked card (Ace counts low).
pub open spec fn spec_chosen_dealer(first_card: Card, second_card: Card) -> Player {
    if first_card.rank.ord_spec() < second_card.rank.ord_spec() {
        Player::First
    } else {
        Player::Second
    }
}

/// The initial game phase: a two-card cut has been drawn, the dealer
/// is not yet chosen. The two cards never share a rank.
pub struct Start {
    cards: PerPlayer<Card>,
}

impl Start {
    #[verifier::type_invariant]
    spec fn wf(self) -> bool {
        self.cards.first.rank != self.cards.second.rank
    }

    /// The card the first player cut.
    pub closed spec fn first_card(self) -> Card {
        self.cards.first
    }

    /// The card the second player cut.
    pub closed spec fn second_card(self) -> Card {
        self.cards.second
    }

    /// Draws the cut from a fresh shuffled deck: the first player takes
    /// the top card, and a tying card for the second player is discarded
    /// and redrawn, so the two ranks always differ and no tie-break rule
    /// is ever needed. The cut pair is uniform over the ordered pairs of
    /// distinct-rank cards, exactly as if a tied pair were redrawn whole.
    pub fn new() -> (s: Start)
        ensures
            s.first_card().rank != s.second_card().rank,
    {
        let deck = get_random_cards(52);
        let first = deck[0];
        proof {
            lemma_top_five_hold_two_ranks(deck@);
        }
        let mut i: usize = 1;
        loop
            invariant
                deck@.len() == 52,
                first == deck@[0],
                1 <= i < 5,
                exists|k: int| i <= k < 5 && (#[trigger] deck@[k]).rank != first.rank,
            decreases 5 - i,
        {
            let second = deck[i];
            // If the cut cards are a tie, redraw so we don't need to deal with ties.
            if !(second.rank == first.rank) {
                return Start { cards: PerPlayer { first, second } };
            }
            i = i + 1;
        }
    }

    /// Builds the cut from two given cards, first player's card first:
    /// for driving the protocol from a known cut. Tied ranks never form
    /// a cut, so they are refused here too.
    pub fn with_cards(first: Card, second: Card) -> (s: Start)
        requires
            first.rank != second.rank,
        ensures
            s.first_card() == first,
            s.second_card() == second,
    {
        Start { cards: PerPlayer { first, second } }
    }

    /// Chooses the dealer from the cut: the holder of the strictly
    /// lower-ranked card deals, play starts with the other player, and
    /// both scores start at zero.
    pub fn choose_dealer(&self) -> (state: EngineState)
        ensures
            ({
                &&& state matches EngineState::DealerChosen(cut)
                &&& cut.cut_cards.spec_get(Player::First) == self.first_card()
                &&& cut.cut_cards.spec_get(Player::Second) == self.second_card()
                &&& cut.cut_cards.spec_get(Player::First).rank != cut.cut_cards.spec_get(
                    Player::Second,
                ).rank
                &&& cut.game_data.dealer == spec_chosen_dealer(
                    self.first_card(),
                    self.second_card(),
                )
                &&& cut.cut_cards.spec_get(cut.game_data.dealer).rank.ord_spec()
                    < cut.cut_cards.spec_get(cut.game_data.dealer.spec_next()).rank.ord_spec()
                &&& cut.game_data.current_player == cut.game_data.dealer.spec_next()
                &&& cut.game_data.scores.spec_get(Player::First) == 0
                &&& cut.game_data.scores.spec_get(Player::Second) == 0
            }),
    {
        proof {
            use_type_invariant(&*self);
            crate::card::lemma_rank_order_injective(self.cards.first.rank, self.cards.second.rank);
        }
        let cut_cards = PerPlayer { first: self.cards.first, second: self.cards.second };

        let dealer = if self.cards.first.rank.order() < self.cards.second.rank.order() {
            Player::First
        } else {
            Player::Second
        };

        let game_data = GameData::new(dealer);
        let result = CutResult { cut_cards, game_data };
        EngineState::DealerChosen(result)
    }
}

/// The outcome of dealer selection: the per-player cut cards, retained
/// for display, and the fresh match data they produced.
pub struct CutResult {
    pub cut_cards: PerPlayer<Card>,
    pub game_data: GameData,
}

/// Match data created once per match, at dealer selection.
pub struct GameData {
    pub dealer: Player,
    pub current_player: Player,
    pub scores: PerPlayer<u8>,
}

impl GameData {
    /// Creates match-start data for a chosen dealer: play begins with
    /// the other player, and both scores are zero.
    pub fn new(dealer: Player) -> (g: GameData)
        ensures
            g.dealer == dealer,
            g.current_player == dealer.spec_next(),
            g.scores.spec_get(Player::First) == 0,
            g.scores.spec_get(Player::Second) == 0,
    {
        GameData {
            dealer,
            current_player: dealer.next(),
            scores: PerPlayer { first: 0u8, second: 0u8 },
        }
    }
}

/// Anticipates the dealt-hand phase: the dealer plus a six-card hand
/// per player, the standard pre-discard hand size. No transition
/// produces it yet.
pub struct DealResult {
    pub dealer: Player,
    pub cards: PerPlayer<[Card; 6]>,
}

/// The game phases: a match starts at `NewGame` and moves to
/// `DealerChosen`, which is terminal in the current engine.
pub enum EngineState {
    NewGame(Start),
    DealerChosen(CutResult),
}

/// Starts a match: always yields `NewGame`, holding a freshly drawn cut.
pub fn new_engine() -> (state: EngineState)
    ensures
        state matches EngineState::NewGame(start) && start.first_card().rank
            != start.second_card().rank,
{
    EngineState::NewGame(Start::new())
}

/// The dealer is always the player holding the strictly lower-ranked
/// cut card, whichever two cards of differing rank were cut.
pub proof fn lemma_dealer_holds_lower_card(first: Card, second: Card)
    requires
        first.rank != second.rank,
    ensures
        ({
            let dealer = spec_chosen_dealer(first, second);
            let cards = PerPlayer { first, second };
            cards.spec_get(dealer).rank.ord_spec() < cards.spec_get(
                dealer.spec_next(),
            ).rank.ord_spec()
        }),
{
    crate::card::lemma_rank_order_injective(first.rank, second.rank);
}

} // verus!
