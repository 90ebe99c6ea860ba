use vstd::prelude::*;
use crate::card::{Card, lemma_key_injective};
use crate::meld::{Meld, meld_huxi};

verus! {

broadcast use vstd::seq_lib::group_to_multiset_ensures;

/// Cards in canonical order: by suit, then by value.
pub open spec fn sorted_cards(s: Seq<Card>) -> bool {
    forall|i: int, j: int| 0 <= i < j < s.len() ==> #[trigger] s[i].spec_key() <= #[trigger] s[j].spec_key()
}

/// How many copies of `c` the sequence holds.
pub open spec fn count_in(s: Seq<Card>, c: Card) -> nat {
    s.to_multiset().count(c)
}

/// Sum of the huxi of a sequence of melds.
pub open spec fn huxi_sum(ms: Seq<Meld>) -> nat
    decreases ms.len(),
{
    if ms.len() == 0 {
        0
    } else {
        huxi_sum(ms.drop_last()) + meld_huxi(ms.last()) as nat
    }
}

/// Total huxi of a list of melds, saturating at 255.
pub open spec fn total_huxi(ms: Seq<Meld>) -> nat {
    if huxi_sum(ms) > 255 {
        255
    } else {
        huxi_sum(ms)
    }
}

/// Adding a meld never decreases a hand's total huxi.
pub proof fn lemma_huxi_monotone(ms: Seq<Meld>, m: Meld)
    ensures
        total_huxi(ms.push(m)) >= total_huxi(ms),
        huxi_sum(ms.push(m)) == huxi_sum(ms) + meld_huxi(m),
{
    assert(ms.push(m).drop_last() == ms);
}

/// Sum of a sequence of counts.
pub open spec fn sum_counts(v: Seq<usize>) -> int
    decreases v.len(),
{
    if v.len() == 0 {
        0
    } else {
        sum_counts(v.drop_last()) + v.last()
    }
}

/// Adding one to an entry adds one to the sum.
proof fn lemma_sum_counts_bump(v: Seq<usize>, k: int)
    requires
        0 <= k < v.len(),
        v[k] < usize::MAX,
    ensures
        sum_counts(v.update(k, (v[k] + 1) as usize)) == sum_counts(v) + 1,
    decreases v.len(),
{
    let u = v.update(k, (v[k] + 1) as usize);
    if k < v.len() - 1 {
        lemma_sum_counts_bump(v.drop_last(), k);
        assert(u.drop_last() == v.drop_last().update(k, (v[k] + 1) as usize));
    } else {
        assert(u.drop_last() == v.drop_last());
    }
}

/// Cards a player holds, and the melds that player has declared.
#[derive(Debug, Clone)]
pub struct Hand {
    cards: Vec<Card>,
    melds: Vec<Meld>,
}

impl Hand {
    pub closed spec fn card_seq(&self) -> Seq<Card> {
        self.cards@
    }

    pub closed spec fn meld_seq(&self) -> Seq<Meld> {
        self.melds@
    }

    pub fn new(cards: Vec<Card>) -> (r: Hand)
        ensures
            r.card_seq() == cards@,
            r.meld_seq().len() == 0,
    {
        Hand { cards, melds: Vec::new() }
    }

    /// Adds a card and restores canonical order.
    pub fn add_card(&mut self, card: Card)
        ensures
            final(self).card_seq().to_multiset() == old(self).card_seq().to_multiset().insert(card),
            sorted_cards(final(self).card_seq()),
            final(self).meld_seq() == old(self).meld_seq(),
    {
        self.cards.push(card);
        self.sort();
    }

    /// Removes and returns the card at `index`, or `None` when there is no such card.
    pub fn remove_card(&mut self, index: usize) -> (r: Option<Card>)
        ensures
            index < old(self).card_seq().len() ==> r == Some(old(self).card_seq()[index as int])
                && final(self).card_seq() == old(self).card_seq().remove(index as int),
            index >= old(self).card_seq().len() ==> r.is_none() && final(self).card_seq()
                == old(self).card_seq(),
            final(self).meld_seq() == old(self).meld_seq(),
    {
        if index < self.cards.len() {
            Some(self.cards.remove(index))
        } else {
            None
        }
    }

    /// Position of the first card equal to `card`.
    pub fn find_card(&self, card: &Card) -> (r: Option<usize>)
        ensures
            match r {
                Some(i) => i < self.card_seq().len() && self.card_seq()[i as int] == *card
                    && forall|j: int| 0 <= j < i ==> self.card_seq()[j] != *card,
                None => !self.card_seq().contains(*card),
            },
    {
        let mut i: usize = 0;
        while i < self.cards.len()
            invariant
                i <= self.cards.len(),
                forall|j: int| 0 <= j < i ==> self.cards@[j] != *card,
            decreases self.cards.len() - i,
        {
            if self.cards[i] == *card {
                return Some(i);
            }
            i = i + 1;
        }
        None
    }

    pub fn cards(&self) -> (r: &[Card])
        ensures
            r@ == self.card_seq(),
    {
        self.cards.as_slice()
    }

    pub fn len(&self) -> (r: usize)
        ensures
            r == self.card_seq().len(),
    {
        self.cards.len()
    }

    pub fn is_empty(&self) -> (r: bool)
        ensures
            r == (self.card_seq().len() == 0),
    {
        self.cards.len() == 0
    }

    /// Puts the cards in canonical order: by suit, then by value.
    pub fn sort(&mut self)
        ensures
            final(self).card_seq().to_multiset() == old(self).card_seq().to_multiset(),
            sorted_cards(final(self).card_seq()),
            final(self).meld_seq() == old(self).meld_seq(),
    {
        let mut out: Vec<Card> = Vec::new();
        let mut i: usize = 0;
        while i < self.cards.len()
            invariant
                i <= self.cards.len(),
                sorted_cards(out@),
                out@.to_multiset() == self.cards@.subrange(0, i as int).to_multiset(),
            decreases self.cards.len() - i,
        {
            let c = self.cards[i];
            let k = c.key();
            let mut pos: usize = 0;
            while pos < out.len() && out[pos].key() <= k
                invariant
                    pos <= out.len(),
                    forall|j: int| 0 <= j < pos ==> #[trigger] out@[j].spec_key() <= k,
                decreases out.len() - pos,
            {
                pos = pos + 1;
            }
            proof {
                let s = out@;
                assert forall|j: int| pos <= j < s.len() implies k < #[trigger] s[j].spec_key() by {
                    assert(k < s[pos as int].spec_key());
                }
            }
            out.insert(pos, c);
            assert(self.cards@.subrange(0, i + 1) == self.cards@.subrange(0, i as int).push(c));
            i = i + 1;
        }
        assert(self.cards@.subrange(0, self.cards@.len() as int) == self.cards@);
        self.cards = out;
    }

    pub fn add_meld(&mut self, meld: Meld)
        ensures
            final(self).meld_seq() == old(self).meld_seq().push(meld),
            final(self).card_seq() == old(self).card_seq(),
            total_huxi(final(self).meld_seq()) >= total_huxi(old(self).meld_seq()),
    {
        self.melds.push(meld);
        proof {
            lemma_huxi_monotone(old(self).melds@, meld);
        }
    }

    pub fn melds(&self) -> (r: &[Meld])
        ensures
            r@ == self.meld_seq(),
    {
        self.melds.as_slice()
    }

    /// Total huxi of the declared melds, saturating at 255.
    pub fn total_huxi(&self) -> (r: u8)
        ensures
            r == total_huxi(self.meld_seq()),
    {
        let mut total: u8 = 0;
        let mut i: usize = 0;
        while i < self.melds.len()
            invariant
                i <= self.melds.len(),
                total == total_huxi(self.melds@.subrange(0, i as int)),
            decreases self.melds.len() - i,
        {
            let h = self.melds[i].huxi();
            assert(self.melds@.subrange(0, i + 1).drop_last() == self.melds@.subrange(0, i as int));
            total = total.saturating_add(h);
            i = i + 1;
        }
        assert(self.melds@.subrange(0, self.melds@.len() as int) == self.melds@);
        total
    }

    /// How many copies of `card` the hand holds.
    pub fn count_of(&self, card: &Card) -> (r: usize)
        ensures
            r == count_in(self.card_seq(), *card),
    {
        let mut n: usize = 0;
        let mut i: usize = 0;
        while i < self.cards.len()
            invariant
                i <= self.cards.len(),
                n == count_in(self.cards@.subrange(0, i as int), *card),
                n <= i,
            decreases self.cards.len() - i,
        {
            assert(self.cards@.subrange(0, i + 1) == self.cards@.subrange(0, i as int).push(
                self.cards@[i as int],
            ));
            if self.cards[i] == *card {
                n = n + 1;
            }
            i = i + 1;
        }
        assert(self.cards@.subrange(0, self.cards@.len() as int) == self.cards@);
        n
    }

    /// Copies of each kind of card, indexed by the card's key (suit, then value).
    pub fn get_card_counts(&self) -> (r: Vec<usize>)
        ensures
            r@.len() == 20,
            forall|c: Card| #[trigger] r@[c.spec_key() as int] == count_in(self.card_seq(), c),
            sum_counts(r@) == self.card_seq().len(),
    {
        let mut counts: Vec<usize> = Vec::new();
        let mut k: usize = 0;
        while k < 20
            invariant
                k <= 20,
                counts@.len() == k,
                forall|j: int| 0 <= j < k ==> counts@[j] == 0,
                sum_counts(counts@) == 0,
            decreases 20 - k,
        {
            let ghost before = counts@;
            counts.push(0);
            proof { assert(counts@.drop_last() == before); }
            k = k + 1;
        }
        let mut i: usize = 0;
        while i < self.cards.len()
            invariant
                i <= self.cards@.len(),
                counts@.len() == 20,
                forall|c: Card| #[trigger] counts@[c.spec_key() as int] == count_in(self.cards@.subrange(0, i as int), c),
                forall|j: int| 0 <= j < 20 ==> counts@[j] <= i,
                sum_counts(counts@) == i,
            decreases self.cards@.len() - i,
        {
            let x = self.cards[i];
            let kx = x.key() as usize;
            let ghost before = counts@;
            let v = counts[kx];
            counts.set(kx, v + 1);
            proof {
                lemma_sum_counts_bump(before, kx as int);
                let pre = self.cards@.subrange(0, i as int);
                assert(self.cards@.subrange(0, i + 1) == pre.push(x));
                assert forall|c: Card| #[trigger] counts@[c.spec_key() as int] == count_in(self.cards@.subrange(0, i + 1), c) by {
                    lemma_key_injective(c, x);
                    assert(pre.push(x).to_multiset() == pre.to_multiset().insert(x));
                }
            }
            i = i + 1;
        }
        proof { assert(self.cards@.subrange(0, self.cards@.len() as int) == self.cards@); }
        counts
    }

    /// Every card of `cards` is present in the hand (copies are not counted).
    pub fn has_meld(&self, cards: &[Card]) -> (r: bool)
        ensures
            r == forall|i: int| 0 <= i < cards@.len() ==> self.card_seq().contains(#[trigger] cards@[i]),
    {
        let mut i: usize = 0;
        while i < cards.len()
            invariant
                i <= cards.len(),
                forall|j: int| 0 <= j < i ==> self.cards@.contains(#[trigger] cards@[j]),
            decreases cards.len() - i,
        {
            if self.count_of(&cards[i]) == 0 {
                assert(!self.cards@.contains(cards@[i as int]));
                return false;
            }
            i = i + 1;
        }
        true
    }

    /// The hand holds at least two copies of `card`.
    pub fn can_peng(&self, card: &Card) -> (r: bool)
        ensures
            r == (count_in(self.card_seq(), *card) >= 2),
    {
        self.count_of(card) >= 2
    }

    /// The hand holds at least two copies of `card`.
    pub fn can_sao(&self, card: &Card) -> (r: bool)
        ensures
            r == (count_in(self.card_seq(), *card) >= 2),
    {
        self.count_of(card) >= 2
    }
}

} // verus!
