//! Cards and the standard 52-card deck.

use vstd::prelude::*;

verus! {

/// Number of cards in a standard deck.
pub const DECK_SIZE: usize = 52;

/// Number of ranks that the deck generator produces (values 1 to 13).
pub const RANKS: usize = 13;

/// The four suits of a standard deck.
#[derive(Debug, Clone, Copy, PartialEq, Eq, Structural)]
pub enum Suit {
    Spades,
    Clubs,
    Diamonds,
    Hearts,
}

/// Position of a suit in the cycle Spades, Clubs, Diamonds, Hearts.
pub open spec fn suit_index(s: Suit) -> nat {
    match s {
        Suit::Spades => 0,
        Suit::Clubs => 1,
        Suit::Diamonds => 2,
        Suit::Hearts => 3,
    }
}

/// The suit found at position `i` of the cycle Spades, Clubs, Diamonds, Hearts.
pub open spec fn suit_at(i: nat) -> Suit {
    if i % 4 == 0 {
        Suit::Spades
    } else if i % 4 == 1 {
        Suit::Clubs
    } else if i % 4 == 2 {
        Suit::Diamonds
    } else {
        Suit::Hearts
    }
}

impl Suit {
    fn from_usize(i: usize) -> (r: Suit)
        ensures
            r == suit_at(i as nat),
    {
        match i % 4 {
            0 => Suit::Spades,
            1 => Suit::Clubs,
            2 => Suit::Diamonds,
            _ => Suit::Hearts,
        }
    }
}

/// A playing card. Values 11 to 13 are Jack, Queen and King; both 1 and 14
/// stand for the Ace.
#[derive(Debug, Clone, Copy, PartialEq, Eq, Structural)]
pub struct Card {
    pub value: usize,
    pub suit: Suit,
}

/// The card at position `i` of a fresh deck: suits outer, values 1 to 13 inner.
pub open spec fn deck_card(i: int) -> Card {
    Card { value: (i % 13 + 1) as usize, suit: suit_at((i / 13) as nat) }
}

/// The whole fresh deck, in the order the generator lays it out.
pub open spec fn deck_seq() -> Seq<Card> {
    Seq::new(52, |i: int| deck_card(i))
}

/// How many cards of `cards` have the given value.
pub open spec fn count_value(cards: Seq<Card>, value: usize) -> nat
    decreases cards.len(),
{
    if cards.len() == 0 {
        0
    } else {
        count_value(cards.drop_last(), value) + if cards.last().value == value {
            1nat
        } else {
            0nat
        }
    }
}

/// How many cards of `cards` have the given value and suit.
pub open spec fn count_card(cards: Seq<Card>, value: usize, suit: Suit) -> nat
    decreases cards.len(),
{
    if cards.len() == 0 {
        0
    } else {
        count_card(cards.drop_last(), value, suit) + if cards.last() == (Card {
            value,
            suit,
        }) {
            1nat
        } else {
            0nat
        }
    }
}

/// The position in a fresh deck of the card with value `v` and suit `s`.
pub open spec fn deck_position(v: int, s: Suit) -> int {
    13 * suit_index(s) + v - 1
}

proof fn lemma_deck_card_at(i: int, v: int, s: Suit)
    requires
        0 <= i < 52,
        1 <= v <= 13,
    ensures
        deck_card(i) == (Card { value: v as usize, suit: s }) <==> i == deck_position(v, s),
{
    let q = i / 13;
    let r = i % 13;
    assert(i == 13 * q + r && 0 <= r < 13 && 0 <= q < 4) by (nonlinear_arith)
        requires
            0 <= i < 52,
            q == i / 13,
            r == i % 13,
    ;
    let p = deck_position(v, s);
    if i == p {
        let si = suit_index(s) as int;
        assert(q == si && r == v - 1) by (nonlinear_arith)
            requires
                i == 13 * q + r,
                0 <= r < 13,
                i == 13 * si + v - 1,
                1 <= v <= 13,
        ;
    }
}

/// Each card with a value in 1 to 13 occurs in the first `n` cards of the
/// fresh deck once if its position is below `n`, else not at all.
proof fn lemma_count_card_prefix(n: int, v: int, s: Suit)
    requires
        0 <= n <= 52,
        1 <= v <= 13,
    ensures
        count_card(deck_seq().subrange(0, n), v as usize, s) == if deck_position(v, s) < n {
            1nat
        } else {
            0nat
        },
    decreases n,
{
    let pre = deck_seq().subrange(0, n);
    if n > 0 {
        assert(pre.drop_last() =~= deck_seq().subrange(0, n - 1));
        lemma_count_card_prefix(n - 1, v, s);
        lemma_deck_card_at(n - 1, v, s);
    } else {
        assert(pre.len() == 0);
    }
}

/// Counting a value is counting it in each of the four suits.
proof fn lemma_count_value_by_suit(cards: Seq<Card>, v: usize)
    ensures
        count_value(cards, v) == count_card(cards, v, Suit::Spades) + count_card(
            cards,
            v,
            Suit::Clubs,
        ) + count_card(cards, v, Suit::Diamonds) + count_card(cards, v, Suit::Hearts),
    decreases cards.len(),
{
    if cards.len() > 0 {
        lemma_count_value_by_suit(cards.drop_last(), v);
    }
}

/// The fresh deck holds each (value, suit) pair with a value in 1 to 13
/// exactly once, and so four cards of each such value.
proof fn lemma_deck_complete()
    ensures
        forall|v: usize, s: Suit| 1 <= v <= 13 ==> #[trigger] count_card(deck_seq(), v, s) == 1,
        forall|v: usize| 1 <= v <= 13 ==> #[trigger] count_value(deck_seq(), v) == 4,
{
    assert(deck_seq().subrange(0, 52) =~= deck_seq());
    assert forall|v: usize, s: Suit| 1 <= v <= 13 implies #[trigger] count_card(
        deck_seq(),
        v,
        s,
    ) == 1 by {
        lemma_count_card_prefix(52, v as int, s);
    }
    assert forall|v: usize| 1 <= v <= 13 implies #[trigger] count_value(deck_seq(), v) == 4 by {
        lemma_count_value_by_suit(deck_seq(), v);
        assert(count_card(deck_seq(), v, Suit::Spades) == 1);
        assert(count_card(deck_seq(), v, Suit::Clubs) == 1);
        assert(count_card(deck_seq(), v, Suit::Diamonds) == 1);
        assert(count_card(deck_seq(), v, Suit::Hearts) == 1);
    }
}

impl Card {
    /// A card of the given value and suit.
    pub fn new(value: usize, suit: Suit) -> (c: Card)
        requires
            1 <= value <= 14,
        ensures
            c.value == value,
            c.suit == suit,
    {
        Card { value, suit }
    }

    /// The 52 cards of a standard deck, in a fixed order: Spades, Clubs,
    /// Diamonds, Hearts, each from value 1 to 13. Not shuffled.
    pub fn new_deck() -> (deck: [Card; 52])
        ensures
            deck@ == deck_seq(),
            forall|i: int| 0 <= i < 52 ==> 1 <= #[trigger] deck[i].value <= 13,
            forall|v: usize, s: Suit| 1 <= v <= 13 ==> #[trigger] count_card(deck@, v, s) == 1,
            forall|v: usize| 1 <= v <= 13 ==> #[trigger] count_value(deck@, v) == 4,
    {
        let mut deck = [Card { value: 1, suit: Suit::Spades };52];
        let mut i: usize = 0;
        while i < DECK_SIZE
            invariant
                i <= 52,
                deck@.len() == 52,
                forall|k: int| 0 <= k < i ==> #[trigger] deck@[k] == deck_card(k),
            decreases 52 - i,
        {
            deck[i] = Card { value: i % RANKS + 1, suit: Suit::from_usize(i / RANKS) };
            i += 1;
        }
        assert(deck@ =~= deck_seq());
        proof {
            lemma_deck_complete();
            assert forall|i: int| 0 <= i < 52 implies 1 <= #[trigger] deck[i].value <= 13 by {
                assert(deck[i] == deck_card(i));
            }
        }
        deck
    }
}

} // verus!
