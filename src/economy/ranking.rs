use vstd::prelude::*;
use vstd::string::*;
use crate::player::PlayerId;
use std::collections::HashMap;

verus! {

broadcast use vstd::std_specs::hash::group_hash_axioms;

/// Ladder tiers, lowest first.
#[derive(Debug, Clone, Copy, PartialEq, Eq, PartialOrd, Ord, Hash, Structural)]
pub enum Tier {
    Bronze,
    Silver,
    Gold,
    Platinum,
    Diamond,
    Master,
    GrandMaster,
}

/// Stars needed to leave tier `t`; the top tier is terminal.
pub open spec fn stars_needed(t: Tier) -> u8 {
    if t == Tier::GrandMaster { 0 } else { 5 }
}

/// The tier above `t` (the top tier stays).
pub open spec fn next_tier(t: Tier) -> Tier {
    match t {
        Tier::Bronze => Tier::Silver,
        Tier::Silver => Tier::Gold,
        Tier::Gold => Tier::Platinum,
        Tier::Platinum => Tier::Diamond,
        Tier::Diamond => Tier::Master,
        Tier::Master => Tier::GrandMaster,
        Tier::GrandMaster => Tier::GrandMaster,
    }
}

/// The tier below `t` (the bottom tier stays).
pub open spec fn prev_tier(t: Tier) -> Tier {
    match t {
        Tier::Bronze => Tier::Bronze,
        Tier::Silver => Tier::Bronze,
        Tier::Gold => Tier::Silver,
        Tier::Platinum => Tier::Gold,
        Tier::Diamond => Tier::Platinum,
        Tier::Master => Tier::Diamond,
        Tier::GrandMaster => Tier::Master,
    }
}

impl Tier {
    pub fn stars_to_promote(&self) -> (r: u8)
        ensures
            r == stars_needed(*self),
    {
        match self {
            Tier::GrandMaster => 0,
            _ => 5,
        }
    }

    /// Rating at which the tier starts, 500 per tier.
    pub fn base_rating(&self) -> (r: u32)
        ensures
            r == match self {
                Tier::Bronze => 0u32,
                Tier::Silver => 500,
                Tier::Gold => 1000,
                Tier::Platinum => 1500,
                Tier::Diamond => 2000,
                Tier::Master => 2500,
                Tier::GrandMaster => 3000,
            },
    {
        match self {
            Tier::Bronze => 0,
            Tier::Silver => 500,
            Tier::Gold => 1000,
            Tier::Platinum => 1500,
            Tier::Diamond => 2000,
            Tier::Master => 2500,
            Tier::GrandMaster => 3000,
        }
    }

    fn next(&self) -> (r: Tier)
        ensures
            r == next_tier(*self),
    {
        match self {
            Tier::Bronze => Tier::Silver,
            Tier::Silver => Tier::Gold,
            Tier::Gold => Tier::Platinum,
            Tier::Platinum => Tier::Diamond,
            Tier::Diamond => Tier::Master,
            Tier::Master => Tier::GrandMaster,
            Tier::GrandMaster => Tier::GrandMaster,
        }
    }

    fn prev(&self) -> (r: Tier)
        ensures
            r == prev_tier(*self),
    {
        match self {
            Tier::Bronze => Tier::Bronze,
            Tier::Silver => Tier::Bronze,
            Tier::Gold => Tier::Silver,
            Tier::Platinum => Tier::Gold,
            Tier::Diamond => Tier::Platinum,
            Tier::Master => Tier::Diamond,
            Tier::GrandMaster => Tier::Master,
        }
    }

    /// The tier's display name.
    pub fn to_string(&self) -> (r: String)
        ensures
            r@ == match self {
                Tier::Bronze => "青铜"@,
                Tier::Silver => "白银"@,
                Tier::Gold => "黄金"@,
                Tier::Platinum => "铂金"@,
                Tier::Diamond => "钻石"@,
                Tier::Master => "大师"@,
                Tier::GrandMaster => "王者"@,
            },
    {
        match self {
            Tier::Bronze => String::from_str("青铜"),
            Tier::Silver => String::from_str("白银"),
            Tier::Gold => String::from_str("黄金"),
            Tier::Platinum => String::from_str("铂金"),
            Tier::Diamond => String::from_str("钻石"),
            Tier::Master => String::from_str("大师"),
            Tier::GrandMaster => String::from_str("王者"),
        }
    }
}

/// `r` after promotion: up a tier with no stars once the stars reach the threshold.
pub open spec fn promoted(r: Rank) -> Rank {
    if r.stars >= stars_needed(r.tier) && r.tier != Tier::GrandMaster {
        Rank { tier: next_tier(r.tier), stars: 0 }
    } else {
        r
    }
}

/// `r` after a star is gained (saturating at 255) and promotion.
pub open spec fn starred(r: Rank) -> Rank {
    promoted(Rank { tier: r.tier, stars: if r.stars == 255 { 255 } else { (r.stars + 1) as u8 } })
}

/// `r` after a star is lost: at no stars, the tier below with one star short of its
/// threshold; Bronze with no stars stays.
pub open spec fn demoted(r: Rank) -> Rank {
    if r.stars == 0 && r.tier != Tier::Bronze {
        Rank { tier: prev_tier(r.tier), stars: (stars_needed(prev_tier(r.tier)) - 1) as u8 }
    } else if r.stars > 0 {
        Rank { tier: r.tier, stars: (r.stars - 1) as u8 }
    } else {
        r
    }
}

/// A ladder position: a tier and the stars earned in it.
#[derive(Debug, Clone, Copy, PartialEq, Eq, Structural)]
pub struct Rank {
    pub tier: Tier,
    pub stars: u8,
}

impl Rank {
    pub fn new(tier: Tier, stars: u8) -> (r: Rank)
        ensures
            r.tier == tier,
            r.stars == stars,
    {
        Rank { tier, stars }
    }

    /// Moves up a tier, with no stars, once the stars reach the tier's threshold.
    pub fn promote(&mut self)
        ensures
            *final(self) == promoted(*old(self)),
    {
        let required = self.tier.stars_to_promote();
        if self.stars >= required && self.tier != Tier::GrandMaster {
            self.tier = self.tier.next();
            self.stars = 0;
        }
    }

    /// Loses a star; at no stars, drops to the tier below with one star short of its
    /// threshold. Bronze with no stars stays.
    pub fn demote(&mut self)
        ensures
            *final(self) == demoted(*old(self)),
    {
        if self.stars == 0 && self.tier != Tier::Bronze {
            self.tier = self.tier.prev();
            self.stars = self.tier.stars_to_promote() - 1;
        } else if self.stars > 0 {
            self.stars = self.stars - 1;
        }
    }

    /// Gains a star (the count saturates at 255), then promotes if due.
    pub fn add_star(&mut self)
        ensures
            *final(self) == starred(*old(self)),
    {
        self.stars = self.stars.saturating_add(1);
        self.promote();
    }
}

/// `n / d` rounded to the nearest integer, halves away from zero.
pub open spec fn round_div(n: int, d: int) -> int {
    if n >= 0 {
        (n + d / 2) / d
    } else {
        -((-n + d / 2) / d)
    }
}

/// Rating change for a result: `K × (actual − expected)`, rounded, with the expected
/// score given in thousandths.
pub open spec fn elo_delta(k: int, expected_milli: int, won: bool) -> int {
    round_div(k * ((if won { 1000int } else { 0int }) - expected_milli), 1000)
}

/// `n + 1`, saturating at the largest `u32`.
pub open spec fn sat_inc(n: u32) -> u32 {
    if n == u32::MAX { n } else { (n + 1) as u32 }
}

/// `e` after a result with the given expected score: the rating moves by `elo_delta`
/// with `e`'s K-factor, floored at 0, and the counters advance (saturating).
pub open spec fn rated(e: EloRating, expected_milli: int, won: bool) -> EloRating {
    let moved = e.rating + elo_delta(k_of(e.games_played, e.rating) as int, expected_milli, won);
    EloRating {
        rating: if moved < 0 { 0 } else if moved > u32::MAX { u32::MAX } else { moved as u32 },
        games_played: sat_inc(e.games_played),
        wins: if won { sat_inc(e.wins) } else { e.wins },
        losses: if won { e.losses } else { sat_inc(e.losses) },
    }
}

/// Hidden matchmaking rating.
#[derive(Debug, Clone, Copy, PartialEq, Eq, Structural)]
pub struct EloRating {
    pub rating: u32,
    pub games_played: u32,
    pub wins: u32,
    pub losses: u32,
}

/// K-factor: 32 for the first 30 games, then 24 below 2000, then 16.
pub open spec fn k_of(games: u32, rating: u32) -> u32 {
    if games < 30 { 32 } else if rating < 2000 { 24 } else { 16 }
}

impl EloRating {
    pub fn new() -> (r: EloRating)
        ensures
            r == (EloRating { rating: 1000, games_played: 0, wins: 0, losses: 0 }),
    {
        EloRating { rating: 1000, games_played: 0, wins: 0, losses: 0 }
    }

    pub fn k_factor(&self) -> (r: u32)
        ensures
            r == k_of(self.games_played, self.rating),
    {
        if self.games_played < 30 {
            32
        } else if self.rating < 2000 {
            24
        } else {
            16
        }
    }

    /// Rating change `round(k × (actual − expected))`, the expected score in thousandths.
    pub fn rating_delta(k: u32, expected_milli: u32, won: bool) -> (r: i64)
        requires
            k <= 32,
            expected_milli <= 1000,
        ensures
            r == elo_delta(k as int, expected_milli as int, won),
            -32 <= r <= 32,
    {
        let actual: i64 = if won { 1000 } else { 0 };
        let diff: i64 = actual - expected_milli as i64;
        assert(-32000 <= (k as int) * (diff as int) <= 32000) by (nonlinear_arith)
            requires
                k <= 32,
                -1000 <= diff <= 1000,
        ;
        let n: i64 = k as i64 * diff;
        let r = if n >= 0 {
            (n + 500) / 1000
        } else {
            -((-n + 500) / 1000)
        };
        r
    }

    /// Records a result with the expected score (in thousandths) against the opponent:
    /// the rating moves by `elo_delta` with this player's K-factor, floored at 0.
    pub fn update_rating(&mut self, expected_milli: u32, won: bool)
        requires
            expected_milli <= 1000,
        ensures
            *final(self) == rated(*old(self), expected_milli as int, won),
    {
        let k = self.k_factor();
        let change = EloRating::rating_delta(k, expected_milli, won);
        let moved: i64 = self.rating as i64 + change;
        self.rating = if moved < 0 {
            0
        } else if moved > u32::MAX as i64 {
            u32::MAX
        } else {
            moved as u32
        };
        self.games_played = self.games_played.saturating_add(1);
        if won {
            self.wins = self.wins.saturating_add(1);
        } else {
            self.losses = self.losses.saturating_add(1);
        }
    }
}

/// At the same K-factor, when the two expected scores sum to one (as they do for any
/// pair of ratings, and both are one half at equal ratings), the winner's rating change
/// is exactly the negation of the loser's.
pub proof fn lemma_elo_symmetry(k: int, winner_expected: int, loser_expected: int)
    requires
        0 <= k,
        0 <= winner_expected <= 1000,
        winner_expected + loser_expected == 1000,
    ensures
        elo_delta(k, winner_expected, true) == -elo_delta(k, loser_expected, false),
{
    assert(k * (1000 - winner_expected) == k * loser_expected);
    assert(k * (0 - loser_expected) == -(k * loser_expected)) by (nonlinear_arith);
    assert(k * loser_expected >= 0) by (nonlinear_arith)
        requires
            0 <= k,
            0 <= loser_expected,
    ;
}

/// A matched winner and loser at equal prior rating and equal K-factor (each expects
/// one half, 500 thousandths) move by exactly opposite amounts, when neither change
/// reaches the floor at 0 or the top of the range.
pub proof fn lemma_elo_update_symmetry(winner: EloRating, loser: EloRating)
    requires
        winner.rating == loser.rating,
        k_of(winner.games_played, winner.rating) == k_of(loser.games_played, loser.rating),
        32 <= winner.rating <= u32::MAX - 32,
    ensures
        rated(winner, 500, true).rating - winner.rating == -(rated(loser, 500, false).rating - loser.rating),
{
    let k = k_of(winner.games_played, winner.rating) as int;
    lemma_elo_symmetry(k, 500, 500);
    assert(k * 500 <= 16000) by (nonlinear_arith)
        requires
            k <= 32,
    ;
    assert(k * 500 >= 0) by (nonlinear_arith)
        requires
            k >= 0,
    ;
}

/// Ratings after `w` beat `l`, the winner expecting `e` thousandths: each registered
/// player's rating is updated in turn, winner first.
pub open spec fn ratings_after_match(m: Map<u128, EloRating>, w: u128, l: u128, e: u32) -> Map<u128, EloRating> {
    let r1 = if m.contains_key(w) { m.insert(w, rated(m[w], e as int, true)) } else { m };
    if r1.contains_key(l) { r1.insert(l, rated(r1[l], 1000 - e, false)) } else { r1 }
}

/// After a match between two registered players of equal rating and equal K-factor
/// (each expecting one half), the winner gains exactly what the loser loses, and both
/// change, when neither rating is near the floor or the top of the range.
pub proof fn lemma_match_symmetry(m: Map<u128, EloRating>, w: u128, l: u128)
    requires
        w != l,
        m.contains_key(w),
        m.contains_key(l),
        m[w].rating == m[l].rating,
        k_of(m[w].games_played, m[w].rating) == k_of(m[l].games_played, m[l].rating),
        32 <= m[w].rating <= u32::MAX - 32,
    ensures
        ({
            let f = ratings_after_match(m, w, l, 500);
            &&& f[w].rating - m[w].rating == -(f[l].rating - m[l].rating)
            &&& f[w].rating > m[w].rating
            &&& f[l].rating < m[l].rating
        }),
{
    lemma_elo_update_symmetry(m[w], m[l]);
    let k = k_of(m[w].games_played, m[w].rating) as int;
    assert(k * 500 >= 8000) by (nonlinear_arith)
        requires
            k >= 16,
    ;
    assert(k * 500 <= 16000) by (nonlinear_arith)
        requires
            k <= 32,
    ;
    let r1 = m.insert(w, rated(m[w], 500, true));
    assert(r1[l] == m[l]);
}

/// Ranks and ratings of registered players, keyed by the identifier's value.
pub struct RankingSystem {
    player_ranks: HashMap<u128, Rank>,
    player_ratings: HashMap<u128, EloRating>,
}

impl RankingSystem {
    pub closed spec fn ranks(&self) -> Map<u128, Rank> {
        self.player_ranks@
    }

    pub closed spec fn ratings(&self) -> Map<u128, EloRating> {
        self.player_ratings@
    }

    pub fn new() -> (r: RankingSystem)
        ensures
            r.ranks() == Map::<u128, Rank>::empty(),
            r.ratings() == Map::<u128, EloRating>::empty(),
    {
        RankingSystem { player_ranks: HashMap::new(), player_ratings: HashMap::new() }
    }

    /// Registers `player_id` at Bronze with no stars and a fresh rating, replacing any
    /// earlier entry.
    pub fn register_player(&mut self, player_id: PlayerId)
        ensures
            final(self).ranks() == old(self).ranks().insert(player_id.0, Rank { tier: Tier::Bronze, stars: 0 }),
            final(self).ratings() == old(self).ratings().insert(player_id.0, EloRating { rating: 1000, games_played: 0, wins: 0, losses: 0 }),
    {
        self.player_ranks.insert(player_id.0, Rank::new(Tier::Bronze, 0));
        self.player_ratings.insert(player_id.0, EloRating::new());
    }

    pub fn get_rank(&self, player_id: PlayerId) -> (r: Option<&Rank>)
        ensures
            match r {
                Some(x) => self.ranks().contains_key(player_id.0) && self.ranks()[player_id.0] == *x,
                None => !self.ranks().contains_key(player_id.0),
            },
    {
        self.player_ranks.get(&player_id.0)
    }

    pub fn get_rating(&self, player_id: PlayerId) -> (r: Option<&EloRating>)
        ensures
            match r {
                Some(x) => self.ratings().contains_key(player_id.0) && self.ratings()[player_id.0] == *x,
                None => !self.ratings().contains_key(player_id.0),
            },
    {
        self.player_ratings.get(&player_id.0)
    }

    /// After a match: the winner's rating moves with expected score `winner_expected_milli`
    /// (thousandths) and gains a star; the loser's with the complementary expected score,
    /// and loses a star. Unregistered players are skipped.
    pub fn update_after_match(&mut self, winner: PlayerId, loser: PlayerId, winner_expected_milli: u32)
        requires
            winner_expected_milli <= 1000,
        ensures
            final(self).ratings() == ratings_after_match(old(self).ratings(), winner.0, loser.0, winner_expected_milli),
            ({
                let k1 = if old(self).ranks().contains_key(winner.0) {
                    old(self).ranks().insert(winner.0, starred(old(self).ranks()[winner.0]))
                } else {
                    old(self).ranks()
                };
                final(self).ranks() == if k1.contains_key(loser.0) {
                    k1.insert(loser.0, demoted(k1[loser.0]))
                } else {
                    k1
                }
            }),
    {
        let loser_expected: u32 = 1000 - winner_expected_milli;
        match self.player_ratings.get(&winner.0) {
            Some(r) => {
                let mut w = *r;
                w.update_rating(winner_expected_milli, true);
                self.player_ratings.insert(winner.0, w);
            },
            None => {},
        }
        match self.player_ratings.get(&loser.0) {
            Some(r) => {
                let mut l = *r;
                l.update_rating(loser_expected, false);
                self.player_ratings.insert(loser.0, l);
            },
            None => {},
        }
        match self.player_ranks.get(&winner.0) {
            Some(r) => {
                let mut w = *r;
                w.add_star();
                self.player_ranks.insert(winner.0, w);
            },
            None => {},
        }
        match self.player_ranks.get(&loser.0) {
            Some(r) => {
                let mut l = *r;
                l.demote();
                self.player_ranks.insert(loser.0, l);
            },
            None => {},
        }
    }
}

} // verus!
