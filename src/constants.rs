use vstd::prelude::*;

verus! {

/// Least total huxi with which a hand may be won.
pub const MIN_HUXI_TO_WIN: u8 = 10;

/// Cards dealt to the dealer.
pub const DEALER_CARD_COUNT: usize = 21;

/// Cards dealt to every other player.
pub const PLAYER_CARD_COUNT: usize = 20;

/// Cards in a full deck.
pub const TOTAL_CARDS: usize = 80;

pub const MAX_PLAYERS: usize = 4;

pub const MIN_PLAYERS: usize = 2;

/// Highest duo of the step table.
pub const MAX_DUO: u8 = 10;

/// Huxi needed for `d` duo: 10 for one duo, then three more per further duo.
pub open spec fn duo_threshold(d: int) -> int {
    if d <= 0 {
        0
    } else {
        10 + 3 * (d - 1)
    }
}

/// Duo earned with `huxi`: the largest `d` in 0..=10 whose threshold `huxi` reaches.
pub open spec fn duo_of(huxi: int) -> int {
    if huxi < 10 {
        0
    } else if (huxi - 10) / 3 + 1 >= 10 {
        10
    } else {
        (huxi - 10) / 3 + 1
    }
}

/// Duo from huxi by the step table: 10 huxi give 1 duo, every 3 more one more, up to 10.
pub fn calculate_duo(huxi: u8) -> (r: u8)
    ensures
        r as int == duo_of(huxi as int),
        r <= MAX_DUO,
        duo_threshold(r as int) <= huxi,
        forall|d: int| 0 <= d <= MAX_DUO && duo_threshold(d) <= huxi ==> d <= r,
{
    if huxi < MIN_HUXI_TO_WIN {
        0
    } else {
        let steps: u8 = (huxi - 10) / 3 + 1;
        if steps >= MAX_DUO {
            MAX_DUO
        } else {
            steps
        }
    }
}

/// The duo table is the step function of its thresholds: `duo_of(h)` is the largest
/// duo in 0..=10 whose threshold `h` reaches.
pub proof fn lemma_duo_is_max_reached(huxi: int)
    requires
        0 <= huxi,
    ensures
        0 <= duo_of(huxi) <= 10,
        duo_threshold(duo_of(huxi)) <= huxi,
        forall|d: int| 0 <= d <= 10 && duo_threshold(d) <= huxi ==> d <= duo_of(huxi),
{
}

/// More huxi never gives fewer duo.
pub proof fn lemma_duo_monotone(a: int, b: int)
    requires
        0 <= a <= b,
    ensures
        duo_of(a) <= duo_of(b),
{
}

} // verus!
