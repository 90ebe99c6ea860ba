use vstd::prelude::*;
use crate::card::{Card, Suit};

verus! {

/// Kinds of declared meld.
#[derive(Debug, Clone, Copy, PartialEq, Eq, Structural)]
pub enum MeldType {
    Chi,
    Peng,
    Sao,
    SaoChuan,
    KaiDuo,
    Kan,
}

/// Base huxi of a meld of type `t`; `big` when it holds a big-suit card.
pub open spec fn base_huxi_of(t: MeldType, big: bool) -> u8 {
    match t {
        MeldType::Chi => if big { 6 } else { 3 },
        MeldType::Peng => if big { 6 } else { 3 },
        MeldType::Sao => if big { 9 } else { 6 },
        MeldType::SaoChuan => if big { 12 } else { 9 },
        MeldType::KaiDuo => if big { 9 } else { 6 },
        MeldType::Kan => if big { 12 } else { 9 },
    }
}

impl MeldType {
    pub fn base_huxi(&self, is_big: bool) -> (r: u8)
        ensures
            r == base_huxi_of(*self, is_big),
            3 <= r <= 12,
    {
        match self {
            MeldType::Chi => if is_big { 6 } else { 3 },
            MeldType::Peng => if is_big { 6 } else { 3 },
            MeldType::Sao => if is_big { 9 } else { 6 },
            MeldType::SaoChuan => if is_big { 12 } else { 9 },
            MeldType::KaiDuo => if is_big { 9 } else { 6 },
            MeldType::Kan => if is_big { 12 } else { 9 },
        }
    }
}

/// Some card of `s` is of the big suit.
pub open spec fn has_big(s: Seq<Card>) -> bool {
    exists|i: int| 0 <= i < s.len() && #[trigger] s[i].suit == Suit::Big
}

/// Three cards of one suit.
pub open spec fn one_suit3(s: Seq<Card>) -> bool {
    s.len() == 3 && s[0].suit == s[1].suit && s[1].suit == s[2].suit
}

/// Three cards whose values are pairwise distinct.
pub open spec fn distinct_values3(s: Seq<Card>) -> bool {
    s.len() == 3 && s[0].val() != s[1].val() && s[1].val() != s[2].val() && s[0].val() != s[2].val()
}

/// Three one-suit cards whose values, in some order, are `v, v+1, v+2`.
pub open spec fn chi_run_shape(s: Seq<Card>) -> bool {
    one_suit3(s) && distinct_values3(s) && (forall|i: int, j: int|
        0 <= i < 3 && 0 <= j < 3 ==> #[trigger] s[i].val() - #[trigger] s[j].val() <= 2)
}

/// Three one-suit cards whose values are exactly 2, 7 and 10.
pub open spec fn chi_2710_shape(s: Seq<Card>) -> bool {
    one_suit3(s) && distinct_values3(s) && (forall|i: int|
        0 <= i < 3 ==> #[trigger] s[i].val() == 2 || s[i].val() == 7 || s[i].val() == 10)
}

/// Number of big-suit cards in `s`.
pub open spec fn big_count(s: Seq<Card>) -> nat
    decreases s.len(),
{
    if s.len() == 0 {
        0
    } else {
        big_count(s.drop_last()) + if s.last().suit == Suit::Big { 1nat } else { 0nat }
    }
}

/// Three cards of mixed suits, two of one and one of the other.
pub open spec fn san_da_shape(s: Seq<Card>) -> bool {
    s.len() == 3 && (big_count(s) == 1 || big_count(s) == 2)
}

/// Three identical cards.
pub open spec fn triplet_shape(s: Seq<Card>) -> bool {
    s.len() == 3 && s[1] == s[0] && s[2] == s[0]
}

/// The shape that a meld of type `t` must have. Chi takes a run or 2-7-10 of one
/// suit; the mixed-suit form is not accepted in play.
pub open spec fn meld_shape_ok(t: MeldType, s: Seq<Card>) -> bool {
    match t {
        MeldType::Chi => chi_run_shape(s) || chi_2710_shape(s),
        _ => triplet_shape(s),
    }
}

/// A declared meld.
#[derive(Debug, Clone)]
pub struct Meld {
    pub meld_type: MeldType,
    pub cards: Vec<Card>,
    pub from_opponent: bool,
}

/// Huxi of one meld.
pub open spec fn meld_huxi(m: Meld) -> u8 {
    base_huxi_of(m.meld_type, has_big(m.cards@))
}

/// Two melds with the same type, cards and origin.
pub open spec fn same_meld(a: Meld, b: Meld) -> bool {
    a.meld_type == b.meld_type && a.cards@ == b.cards@ && a.from_opponent == b.from_opponent
}

/// The meld passes the shape predicate of its type.
pub open spec fn meld_valid(m: Meld) -> bool {
    meld_shape_ok(m.meld_type, m.cards@)
}

impl Meld {
    pub fn new(meld_type: MeldType, cards: Vec<Card>, from_opponent: bool) -> (r: Meld)
        ensures
            r.meld_type == meld_type,
            r.cards@ == cards@,
            r.from_opponent == from_opponent,
    {
        Meld { meld_type, cards, from_opponent }
    }

    pub fn huxi(&self) -> (r: u8)
        ensures
            r == meld_huxi(*self),
            3 <= r <= 12,
    {
        let mut big = false;
        let mut i: usize = 0;
        while i < self.cards.len()
            invariant
                i <= self.cards.len(),
                big == exists|j: int| 0 <= j < i && #[trigger] self.cards@[j].suit == Suit::Big,
            decreases self.cards.len() - i,
        {
            if self.cards[i].suit == Suit::Big {
                big = true;
            }
            i = i + 1;
        }
        self.meld_type.base_huxi(big)
    }

    /// A run: three cards of one suit with values `v, v+1, v+2` in any order.
    pub fn is_valid_chi(cards: &[Card]) -> (r: bool)
        ensures
            r == chi_run_shape(cards@),
    {
        if cards.len() != 3 {
            return false;
        }
        if cards[1].suit != cards[0].suit || cards[2].suit != cards[0].suit {
            return false;
        }
        let a = cards[0].value.as_u8();
        let b = cards[1].value.as_u8();
        let c = cards[2].value.as_u8();
        let lo = if a <= b && a <= c { a } else if b <= c { b } else { c };
        let hi = if a >= b && a >= c { a } else if b >= c { b } else { c };
        a != b && b != c && a != c && hi - lo == 2
    }

    /// Three cards of one suit with values exactly 2, 7 and 10.
    pub fn is_valid_2710(cards: &[Card]) -> (r: bool)
        ensures
            r == chi_2710_shape(cards@),
    {
        if cards.len() != 3 {
            return false;
        }
        if cards[1].suit != cards[0].suit || cards[2].suit != cards[0].suit {
            return false;
        }
        let a = cards[0].value.as_u8();
        let b = cards[1].value.as_u8();
        let c = cards[2].value.as_u8();
        a != b && b != c && a != c && cards[0].is_red() && cards[1].is_red() && cards[2].is_red()
    }

    /// Three cards of mixed suits: two big and one small, or one big and two small.
    pub fn is_valid_san_da(cards: &[Card]) -> (r: bool)
        ensures
            r == san_da_shape(cards@),
    {
        if cards.len() != 3 {
            return false;
        }
        let mut bigs: usize = 0;
        let mut i: usize = 0;
        while i < 3
            invariant
                i <= 3,
                cards@.len() == 3,
                bigs == big_count(cards@.subrange(0, i as int)),
                bigs <= i,
            decreases 3 - i,
        {
            assert(cards@.subrange(0, i + 1).drop_last() == cards@.subrange(0, i as int));
            if cards[i].suit == Suit::Big {
                bigs = bigs + 1;
            }
            i = i + 1;
        }
        assert(cards@.subrange(0, 3) == cards@);
        bigs == 1 || bigs == 2
    }

    /// Three identical cards.
    pub fn is_valid_peng(cards: &[Card]) -> (r: bool)
        ensures
            r == triplet_shape(cards@),
    {
        cards.len() == 3 && cards[1] == cards[0] && cards[2] == cards[0]
    }

    /// Three identical cards, declared concealed.
    pub fn is_valid_kan(cards: &[Card]) -> (r: bool)
        ensures
            r == triplet_shape(cards@),
    {
        cards.len() == 3 && cards[1] == cards[0] && cards[2] == cards[0]
    }

    /// Two cards in hand that both equal the new card.
    pub fn is_valid_sao(self_cards: &[Card], new_card: &Card) -> (r: bool)
        ensures
            r == (self_cards@.len() == 2 && self_cards@[0] == *new_card && self_cards@[1]
                == *new_card),
    {
        self_cards.len() == 2 && self_cards[0] == *new_card && self_cards[1] == *new_card
    }
}

} // verus!
