use vstd::prelude::*;
use vstd::string::*;

verus! {

/// The two suits: small-form glyphs and big-form glyphs.
#[derive(Debug, Clone, Copy, PartialEq, Eq, Hash, Structural)]
pub enum Suit {
    Small,
    Big,
}

impl Suit {
    /// Position of the suit in the canonical order (small first).
    pub open spec fn spec_as_u8(&self) -> u8 {
        match self {
            Suit::Small => 0,
            Suit::Big => 1,
        }
    }

    #[verifier::when_used_as_spec(spec_as_u8)]
    pub fn as_u8(&self) -> (r: u8)
        ensures
            r == self.spec_as_u8(),
    {
        match self {
            Suit::Small => 0,
            Suit::Big => 1,
        }
    }

    /// The suit's display name.
    pub fn to_string(&self) -> (r: String)
        ensures
            r@ == (match self {
                Suit::Small => "小"@,
                Suit::Big => "大"@,
            }),
    {
        match self {
            Suit::Small => String::from_str("小"),
            Suit::Big => String::from_str("大"),
        }
    }
}

/// Card face value, one to ten.
#[derive(Debug, Clone, Copy, PartialEq, Eq, Hash, Structural)]
pub enum CardValue {
    One,
    Two,
    Three,
    Four,
    Five,
    Six,
    Seven,
    Eight,
    Nine,
    Ten,
}

/// A value is red iff it is 2, 7 or 10.
pub open spec fn red_value(v: int) -> bool {
    v == 2 || v == 7 || v == 10
}

impl CardValue {
    pub open spec fn spec_as_u8(&self) -> u8 {
        match self {
            CardValue::One => 1,
            CardValue::Two => 2,
            CardValue::Three => 3,
            CardValue::Four => 4,
            CardValue::Five => 5,
            CardValue::Six => 6,
            CardValue::Seven => 7,
            CardValue::Eight => 8,
            CardValue::Nine => 9,
            CardValue::Ten => 10,
        }
    }

    #[verifier::when_used_as_spec(spec_as_u8)]
    pub fn as_u8(&self) -> (r: u8)
        ensures
            r == self.spec_as_u8(),
            1 <= r <= 10,
    {
        match self {
            CardValue::One => 1,
            CardValue::Two => 2,
            CardValue::Three => 3,
            CardValue::Four => 4,
            CardValue::Five => 5,
            CardValue::Six => 6,
            CardValue::Seven => 7,
            CardValue::Eight => 8,
            CardValue::Nine => 9,
            CardValue::Ten => 10,
        }
    }

    /// The value whose number is `v`, if `v` is in 1..=10.
    pub fn from_u8(v: u8) -> (r: Option<CardValue>)
        ensures
            (1 <= v <= 10) <==> r.is_some(),
            r.is_some() ==> r.unwrap().spec_as_u8() == v,
    {
        match v {
            1 => Some(CardValue::One),
            2 => Some(CardValue::Two),
            3 => Some(CardValue::Three),
            4 => Some(CardValue::Four),
            5 => Some(CardValue::Five),
            6 => Some(CardValue::Six),
            7 => Some(CardValue::Seven),
            8 => Some(CardValue::Eight),
            9 => Some(CardValue::Nine),
            10 => Some(CardValue::Ten),
            _ => None,
        }
    }

    pub fn is_red(&self) -> (r: bool)
        ensures
            r == red_value(self.spec_as_u8() as int),
    {
        match self {
            CardValue::Two | CardValue::Seven | CardValue::Ten => true,
            _ => false,
        }
    }

    /// The small-form glyph of the value.
    pub fn to_string(&self) -> (r: String)
        ensures
            r@ == small_glyph(self.spec_as_u8() as int),
    {
        glyph_text(self.as_u8(), false)
    }
}

/// Small-form glyph of value `v`.
pub open spec fn small_glyph(v: int) -> Seq<char> {
    if v == 1 { "一"@ }
    else if v == 2 { "二"@ }
    else if v == 3 { "三"@ }
    else if v == 4 { "四"@ }
    else if v == 5 { "五"@ }
    else if v == 6 { "六"@ }
    else if v == 7 { "七"@ }
    else if v == 8 { "八"@ }
    else if v == 9 { "九"@ }
    else { "十"@ }
}

/// Big-form glyph of value `v`.
pub open spec fn big_glyph(v: int) -> Seq<char> {
    if v == 1 { "壹"@ }
    else if v == 2 { "贰"@ }
    else if v == 3 { "叁"@ }
    else if v == 4 { "肆"@ }
    else if v == 5 { "伍"@ }
    else if v == 6 { "陆"@ }
    else if v == 7 { "柒"@ }
    else if v == 8 { "捌"@ }
    else if v == 9 { "玖"@ }
    else { "拾"@ }
}

fn glyph_text(v: u8, big: bool) -> (r: String)
    requires
        1 <= v <= 10,
    ensures
        r@ == (if big { big_glyph(v as int) } else { small_glyph(v as int) }),
{
    if big {
        if v == 1 { String::from_str("壹") }
        else if v == 2 { String::from_str("贰") }
        else if v == 3 { String::from_str("叁") }
        else if v == 4 { String::from_str("肆") }
        else if v == 5 { String::from_str("伍") }
        else if v == 6 { String::from_str("陆") }
        else if v == 7 { String::from_str("柒") }
        else if v == 8 { String::from_str("捌") }
        else if v == 9 { String::from_str("玖") }
        else { String::from_str("拾") }
    } else {
        if v == 1 { String::from_str("一") }
        else if v == 2 { String::from_str("二") }
        else if v == 3 { String::from_str("三") }
        else if v == 4 { String::from_str("四") }
        else if v == 5 { String::from_str("五") }
        else if v == 6 { String::from_str("六") }
        else if v == 7 { String::from_str("七") }
        else if v == 8 { String::from_str("八") }
        else if v == 9 { String::from_str("九") }
        else { String::from_str("十") }
    }
}

/// Whether a card is red (2, 7, 10) or black.
#[derive(Debug, Clone, Copy, PartialEq, Eq, Structural)]
pub enum CardType {
    Red,
    Black,
}

/// A card: a suit and a value. Equality and order depend on these alone.
#[derive(Debug, Clone, Copy, PartialEq, Eq, Hash, Structural)]
pub struct Card {
    pub suit: Suit,
    pub value: CardValue,
}

impl Card {
    /// Numeric value of the card, 1..=10.
    pub open spec fn val(self) -> int {
        self.value.spec_as_u8() as int
    }

    /// Position of the card's kind in the canonical order: by suit, then value.
    pub open spec fn spec_key(&self) -> u8 {
        (self.suit.spec_as_u8() * 10 + self.value.spec_as_u8() - 1) as u8
    }

    pub open spec fn is_big(self) -> bool {
        self.suit == Suit::Big
    }

    pub fn new(suit: Suit, value: CardValue) -> (r: Card)
        ensures
            r.suit == suit,
            r.value == value,
    {
        Card { suit, value }
    }

    #[verifier::when_used_as_spec(spec_key)]
    pub fn key(&self) -> (r: u8)
        ensures
            r == self.spec_key(),
            r < 20,
    {
        self.suit.as_u8() * 10 + self.value.as_u8() - 1
    }

    /// The card whose key is `k`.
    pub fn from_key(k: u8) -> (r: Card)
        requires
            k < 20,
        ensures
            r.spec_key() == k,
    {
        let suit = if k < 10 { Suit::Small } else { Suit::Big };
        let v = k % 10 + 1;
        match CardValue::from_u8(v) {
            Some(value) => Card { suit, value },
            None => Card { suit, value: CardValue::One },
        }
    }

    pub fn is_red(&self) -> (r: bool)
        ensures
            r == red_value(self.val()),
    {
        self.value.is_red()
    }

    pub fn card_type(&self) -> (r: CardType)
        ensures
            r == (if red_value(self.val()) { CardType::Red } else { CardType::Black }),
    {
        if self.is_red() {
            CardType::Red
        } else {
            CardType::Black
        }
    }

    /// The card's glyph: small form for the small suit, big form for the big suit.
    pub fn to_string(&self) -> (r: String)
        ensures
            r@ == (if self.is_big() { big_glyph(self.val()) } else { small_glyph(self.val()) }),
    {
        glyph_text(self.value.as_u8(), self.suit == Suit::Big)
    }
}

/// Keys identify cards: two cards with the same key are equal.
pub proof fn lemma_key_injective(a: Card, b: Card)
    ensures
        a.spec_key() == b.spec_key() <==> a == b,
{
}

} // verus!
