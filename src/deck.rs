use vstd::prelude::*;
use crate::card::{Card, CardValue, Suit};
use rand::seq::SliceRandom;
use rand::SeedableRng;

verus! {

broadcast use vstd::seq_lib::group_to_multiset_ensures;

/// The card at position `i` of a fresh deck: all small cards first, four copies of each
/// value in ascending order, then the big cards likewise.
pub open spec fn fresh_card(i: int) -> Card {
    Card {
        suit: if i < 40 { Suit::Small } else { Suit::Big },
        value: fresh_value((i % 40) / 4 + 1),
    }
}

pub open spec fn fresh_value(v: int) -> CardValue {
    if v == 1 { CardValue::One }
    else if v == 2 { CardValue::Two }
    else if v == 3 { CardValue::Three }
    else if v == 4 { CardValue::Four }
    else if v == 5 { CardValue::Five }
    else if v == 6 { CardValue::Six }
    else if v == 7 { CardValue::Seven }
    else if v == 8 { CardValue::Eight }
    else if v == 9 { CardValue::Nine }
    else { CardValue::Ten }
}

/// The 80-card deck: 2 suits, 10 values, 4 copies each.
pub open spec fn full_deck() -> Seq<Card> {
    Seq::new(80, |i: int| fresh_card(i))
}

proof fn lemma_fresh_key(i: int)
    requires
        0 <= i < 80,
    ensures
        fresh_card(i).spec_key() == i / 4,
{
    let v = (i % 40) / 4 + 1;
    assert(1 <= v <= 10);
    assert(fresh_value(v).spec_as_u8() == v);
}

proof fn lemma_prefix_count(i: int, c: Card)
    requires
        0 <= i <= 80,
    ensures
        full_deck().subrange(0, i).to_multiset().count(c) == {
            let d = i - 4 * c.spec_key();
            if d <= 0 { 0 } else if d >= 4 { 4 } else { d }
        },
    decreases i,
{
    broadcast use vstd::seq_lib::group_to_multiset_ensures;

    if i == 0 {
        assert(full_deck().subrange(0, 0) =~= Seq::<Card>::empty());
        assert(Seq::<Card>::empty().to_multiset().count(c) == 0) by {
            broadcast use vstd::multiset::group_multiset_axioms;
        }
    } else {
        lemma_prefix_count(i - 1, c);
        lemma_fresh_key(i - 1);
        crate::card::lemma_key_injective(fresh_card(i - 1), c);
        assert(full_deck().subrange(0, i) == full_deck().subrange(0, i - 1).push(fresh_card(i - 1)));
        broadcast use vstd::multiset::group_multiset_axioms;
    }
}

/// The full deck holds exactly four copies of every card.
pub proof fn lemma_four_of_each(c: Card)
    ensures
        full_deck().to_multiset().count(c) == 4,
{
    lemma_prefix_count(80, c);
    assert(full_deck().subrange(0, 80) == full_deck());
    assert(c.spec_key() < 20);
}

/// Relies on rand's `SliceRandom::shuffle` with the thread-local generator, which
/// permutes the slice in place by swaps.
#[verifier::external_body]
fn shuffle_cards(cards: &mut Vec<Card>)
    ensures
        final(cards)@.to_multiset() == old(cards)@.to_multiset(),
        final(cards)@.len() == old(cards)@.len(),
{
    cards.shuffle(&mut rand::thread_rng());
}

/// The order a seeded shuffle gives `cards`: fixed by the cards and the seed alone.
pub uninterp spec fn seeded_order(cards: Seq<Card>, seed: u64) -> Seq<Card>;

/// Relies on rand's `SliceRandom::shuffle` with a `StdRng` seeded by `seed`, which
/// permutes the slice in place by swaps; the generator's output depends on the seed
/// alone, so the order does too.
#[verifier::external_body]
fn shuffle_cards_seeded(cards: &mut Vec<Card>, seed: u64)
    ensures
        final(cards)@ == seeded_order(old(cards)@, seed),
        final(cards)@.to_multiset() == old(cards)@.to_multiset(),
        final(cards)@.len() == old(cards)@.len(),
{
    cards.shuffle(&mut rand::rngs::StdRng::seed_from_u64(seed));
}

/// Undrawn cards; the last one is the top, drawn next.
#[derive(Debug, Clone)]
pub struct Deck {
    cards: Vec<Card>,
}

impl Deck {
    pub closed spec fn view_cards(&self) -> Seq<Card> {
        self.cards@
    }

    /// A full, ordered deck.
    pub fn new() -> (r: Deck)
        ensures
            r.view_cards() == full_deck(),
    {
        let mut cards: Vec<Card> = Vec::with_capacity(80);
        let mut i: usize = 0;
        while i < 80
            invariant
                i <= 80,
                cards@ == full_deck().subrange(0, i as int),
            decreases 80 - i,
        {
            let suit = if i < 40 { Suit::Small } else { Suit::Big };
            let v: u8 = ((i % 40) / 4 + 1) as u8;
            let value = match CardValue::from_u8(v) {
                Some(x) => x,
                None => CardValue::One,
            };
            assert(value == fresh_value(v as int));
            cards.push(Card { suit, value });
            assert(full_deck().subrange(0, i + 1) == full_deck().subrange(0, i as int).push(
                fresh_card(i as int),
            ));
            i = i + 1;
        }
        assert(full_deck().subrange(0, 80) == full_deck());
        Deck { cards }
    }

    /// Shuffles the deck with a fresh random order.
    pub fn shuffle(&mut self)
        ensures
            final(self).view_cards().to_multiset() == old(self).view_cards().to_multiset(),
            final(self).view_cards().len() == old(self).view_cards().len(),
    {
        shuffle_cards(&mut self.cards);
    }

    /// Shuffles the deck with an order fixed by `seed`.
    pub fn shuffle_seeded(&mut self, seed: u64)
        ensures
            final(self).view_cards() == seeded_order(old(self).view_cards(), seed),
            final(self).view_cards().to_multiset() == old(self).view_cards().to_multiset(),
            final(self).view_cards().len() == old(self).view_cards().len(),
    {
        shuffle_cards_seeded(&mut self.cards, seed);
    }

    /// Takes the top card, if any.
    pub fn draw(&mut self) -> (r: Option<Card>)
        ensures
            old(self).view_cards().len() == 0 ==> r.is_none() && final(self).view_cards()
                == old(self).view_cards(),
            old(self).view_cards().len() > 0 ==> r == Some(old(self).view_cards().last())
                && final(self).view_cards() == old(self).view_cards().drop_last(),
    {
        self.cards.pop()
    }

    /// Takes up to `n` cards from the top, top first.
    pub fn draw_n(&mut self, n: usize) -> (r: Vec<Card>)
        ensures
            r@.len() == if n <= old(self).view_cards().len() { n as int } else { old(
                self,
            ).view_cards().len() as int },
            final(self).view_cards() == old(self).view_cards().subrange(
                0,
                old(self).view_cards().len() - r@.len(),
            ),
            forall|j: int| 0 <= j < r@.len() ==> #[trigger] r@[j] == old(self).view_cards()[old(
                self,
            ).view_cards().len() - 1 - j],
            old(self).view_cards().to_multiset() == final(self).view_cards().to_multiset().add(
                r@.to_multiset(),
            ),
    {
        let ghost orig = self.cards@;
        let mut drawn: Vec<Card> = Vec::new();
        let mut i: usize = 0;
        while i < n
            invariant
                i <= n,
                drawn@.len() == i,
                i <= orig.len(),
                self.cards@ == orig.subrange(0, orig.len() - i),
                forall|j: int| 0 <= j < i ==> #[trigger] drawn@[j] == orig[orig.len() - 1 - j],
                orig.to_multiset() == self.cards@.to_multiset().add(drawn@.to_multiset()),
            ensures
                i == n || i == orig.len(),
                drawn@.len() == i,
                i <= orig.len(),
                self.cards@ == orig.subrange(0, orig.len() - i),
                forall|j: int| 0 <= j < i ==> #[trigger] drawn@[j] == orig[orig.len() - 1 - j],
                orig.to_multiset() == self.cards@.to_multiset().add(drawn@.to_multiset()),
            decreases n - i,
        {
            match self.draw() {
                Some(card) => {
                    proof {
                        let before = orig.subrange(0, orig.len() - i);
                        assert(before == before.drop_last().push(card));
                        assert(before.to_multiset() == before.drop_last().to_multiset().insert(
                            card,
                        ));
                    }
                    drawn.push(card);
                    i = i + 1;
                },
                None => {
                    break ;
                },
            }
        }
        drawn
    }

    pub fn remaining(&self) -> (r: usize)
        ensures
            r == self.view_cards().len(),
    {
        self.cards.len()
    }

    pub fn is_empty(&self) -> (r: bool)
        ensures
            r == (self.view_cards().len() == 0),
    {
        self.cards.len() == 0
    }

    /// The undrawn cards, top last.
    pub fn peek_remaining(&self) -> (r: &[Card])
        ensures
            r@ == self.view_cards(),
    {
        self.cards.as_slice()
    }
}

} // verus!
