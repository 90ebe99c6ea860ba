use vstd::prelude::*;
use crate::constants::{calculate_duo, duo_of, MAX_PLAYERS};
use crate::economy::EconomyConfig;
use crate::game::GameState;
use crate::player::PlayerId;

verus! {

/// Modifiers of a settlement that skills contribute.
#[derive(Debug, Clone, Copy, PartialEq, Eq, Structural)]
pub enum ModifierType {
    WinBonus,
    LossReduction,
    TargetPenalty,
}

/// A skill's settlement modifier; `value_bp` is in basis points (1/10000).
#[derive(Debug, Clone)]
pub struct SkillModifier {
    pub skill_id: u32,
    pub skill_name: String,
    pub modifier_type: ModifierType,
    pub value_bp: u64,
}

/// One participant's result of a hand.
#[derive(Debug, Clone)]
pub struct GameOutcome {
    pub player_id: PlayerId,
    pub is_winner: bool,
    pub huxi: u8,
    pub duo: u8,
    pub fan: u8,
    pub is_zimo: bool,
    pub is_tianhu: bool,
    pub is_dihu: bool,
    pub skill_modifiers: Vec<SkillModifier>,
}

/// One participant's settlement.
#[derive(Debug, Clone)]
pub struct SettlementResult {
    pub player_id: PlayerId,
    pub outcome: GameOutcome,
    pub base_beans: i64,
    pub skill_bonus: i64,
    pub rake_deduction: i64,
    pub final_beans: i64,
    pub rating_change: i32,
    pub new_tier: Option<String>,
}

/// Largest base bet the calculator takes.
pub const MAX_BASE_BET: u64 = 1_000_000_000_000;

/// Most modifiers one outcome may carry.
pub const MAX_MODIFIERS: usize = 16;

/// `base × bp / 10000`, rounded down, summed over the modifiers of type `t`.
pub open spec fn modifier_sum(mods: Seq<SkillModifier>, t: ModifierType, base: int) -> int
    decreases mods.len(),
{
    if mods.len() == 0 {
        0
    } else {
        modifier_sum(mods.drop_last(), t, base) + if mods.last().modifier_type == t {
            base * mods.last().value_bp / 10000
        } else {
            0
        }
    }
}

/// Pot of a hand with `n` players.
pub open spec fn pot_of(cfg: EconomyConfig, n: int) -> int {
    cfg.base_bet * n
}

/// Rake: the pot times the rake rate, rounded down.
pub open spec fn rake_of(cfg: EconomyConfig, n: int) -> int {
    pot_of(cfg, n) * cfg.rake_bp / 10000
}

/// What the winner's base share is: the pot less the rake.
pub open spec fn distributable_of(cfg: EconomyConfig, n: int) -> int {
    pot_of(cfg, n) - rake_of(cfg, n)
}

/// `2^(zimo + tianhu + dihu)`.
pub open spec fn multiplier_of(o: GameOutcome) -> int {
    (if o.is_zimo { 2int } else { 1int }) * (if o.is_tianhu { 2int } else { 1int }) * (if o.is_dihu {
        2int
    } else {
        1int
    })
}

/// Base beans of an outcome.
pub open spec fn base_of(o: GameOutcome, cfg: EconomyConfig, n: int) -> int {
    if o.is_winner { distributable_of(cfg, n) } else { -cfg.base_bet }
}

/// Skill bonus (winner) or loss reduction (loser) of an outcome.
pub open spec fn bonus_of(o: GameOutcome, cfg: EconomyConfig, n: int) -> int {
    if o.is_winner {
        modifier_sum(o.skill_modifiers@, ModifierType::WinBonus, distributable_of(cfg, n))
    } else {
        modifier_sum(o.skill_modifiers@, ModifierType::LossReduction, cfg.base_bet as int)
    }
}

/// Final beans of an outcome: the winner's `(base + bonus) × multiplier`, a loser's
/// `−base_bet + reduction`.
pub open spec fn final_of(o: GameOutcome, cfg: EconomyConfig, n: int) -> int {
    if o.is_winner {
        (base_of(o, cfg, n) + bonus_of(o, cfg, n)) * multiplier_of(o)
    } else {
        base_of(o, cfg, n) + bonus_of(o, cfg, n)
    }
}

/// Sum of the final beans of `os` in a hand of `n` players.
pub open spec fn finals_sum(os: Seq<GameOutcome>, cfg: EconomyConfig, n: int) -> int
    decreases os.len(),
{
    if os.len() == 0 {
        0
    } else {
        finals_sum(os.drop_last(), cfg, n) + final_of(os.last(), cfg, n)
    }
}

/// Largest final a winner can reach within the calculator's inputs.
pub const FINAL_BOUND: i64 = 4 * 1_000_000_000_000 * 17 * 8;

/// What the finals and the rake leave unbalanced: it accrues to the rake.
pub open spec fn residue_of(os: Seq<GameOutcome>, cfg: EconomyConfig, n: int) -> int {
    -finals_sum(os, cfg, n) - rake_of(cfg, n)
}

/// `h` is the first winner's position in `os`.
pub open spec fn first_winner_at(os: Seq<GameOutcome>, h: int) -> bool {
    0 <= h < os.len() && os[h].is_winner && forall|j: int| 0 <= j < h ==> !(#[trigger] os[j]).is_winner
}

/// Where the house take is booked: the first winner, or the first participant when
/// nobody won.
pub open spec fn house_index(os: Seq<GameOutcome>, h: int) -> bool {
    if exists|k: int| 0 <= k < os.len() && (#[trigger] os[k]).is_winner {
        first_winner_at(os, h)
    } else {
        h == 0 && os.len() > 0
    }
}

/// Sum of final beans and rake deductions over settlement results.
pub open spec fn settled_sum(rs: Seq<SettlementResult>) -> int
    decreases rs.len(),
{
    if rs.len() == 0 {
        0
    } else {
        settled_sum(rs.drop_last()) + rs.last().final_beans + rs.last().rake_deduction
    }
}

proof fn lemma_winners_count(os: Seq<GameOutcome>)
    ensures
        (winners(os) > 0) == exists|k: int| 0 <= k < os.len() && (#[trigger] os[k]).is_winner,
        winners(os) >= 0,
    decreases os.len(),
{
    if os.len() > 0 {
        lemma_winners_count(os.drop_last());
        if exists|k: int| 0 <= k < os.drop_last().len() && (#[trigger] os.drop_last()[k]).is_winner {
            let k = choose|k: int| 0 <= k < os.drop_last().len() && (#[trigger] os.drop_last()[k]).is_winner;
            assert(os[k].is_winner);
        }
        if exists|k: int| 0 <= k < os.len() && (#[trigger] os[k]).is_winner {
            let k = choose|k: int| 0 <= k < os.len() && (#[trigger] os[k]).is_winner;
            if k < os.len() - 1 {
                assert(os.drop_last()[k].is_winner);
            }
        }
    }
}

proof fn lemma_no_winner_before(os: Seq<GameOutcome>, i: int)
    requires
        0 <= i < os.len(),
        winners(os.subrange(0, i)) == 0,
        os[i].is_winner,
    ensures
        first_winner_at(os, i),
{
    lemma_winners_count(os.subrange(0, i));
    assert forall|j: int| 0 <= j < i implies !(#[trigger] os[j]).is_winner by {
        assert(os.subrange(0, i)[j] == os[j]);
    }
}

proof fn lemma_house_index(os: Seq<GameOutcome>, h: int, found: bool)
    requires
        found == (winners(os) > 0),
        found ==> first_winner_at(os, h),
        !found ==> h == 0,
    ensures
        forall|j: int| 0 <= j < os.len() ==> house_index(os, j) == (j == h),
        os.len() > 0 ==> 0 <= h < os.len(),
{
    lemma_winners_count(os);
    assert forall|j: int| 0 <= j < os.len() implies house_index(os, j) == (j == h) by {
        if found && first_winner_at(os, j) && j != h {
            if j < h {
                assert(!os[j].is_winner);
            } else {
                assert(!os[h].is_winner);
            }
        }
    }
}

/// Number of winners among `os`.
pub open spec fn winners(os: Seq<GameOutcome>) -> int
    decreases os.len(),
{
    if os.len() == 0 {
        0
    } else {
        winners(os.drop_last()) + if os.last().is_winner { 1int } else { 0int }
    }
}

/// An outcome with no skill modifiers and no zimo, tianhu or dihu.
pub open spec fn plain_outcome(o: GameOutcome) -> bool {
    o.skill_modifiers@.len() == 0 && !o.is_zimo && !o.is_tianhu && !o.is_dihu
}

/// Inputs the calculator takes: rates of at most 100%, at most four players, bounded
/// bets and modifiers.
pub open spec fn settlement_inputs_ok(os: Seq<GameOutcome>, cfg: EconomyConfig) -> bool {
    &&& os.len() <= MAX_PLAYERS
    &&& cfg.base_bet <= MAX_BASE_BET
    &&& cfg.rake_bp <= 10000
    &&& forall|i: int| 0 <= i < os.len() ==> {
        &&& (#[trigger] os[i]).skill_modifiers@.len() <= MAX_MODIFIERS
        &&& forall|j: int| 0 <= j < os[i].skill_modifiers@.len() ==> (#[trigger] os[i].skill_modifiers@[j]).value_bp <= 10000
    }
}

proof fn lemma_modifier_sum_bounds(mods: Seq<SkillModifier>, t: ModifierType, base: int)
    requires
        0 <= base,
        forall|j: int| 0 <= j < mods.len() ==> (#[trigger] mods[j]).value_bp <= 10000,
    ensures
        0 <= modifier_sum(mods, t, base) <= base * mods.len(),
    decreases mods.len(),
{
    if mods.len() > 0 {
        let m = mods.last();
        assert(m == mods[mods.len() - 1]);
        lemma_modifier_sum_bounds(mods.drop_last(), t, base);
        assert(0 <= base * m.value_bp / 10000 <= base) by (nonlinear_arith)
            requires
                0 <= base,
                m.value_bp <= 10000,
        ;
        assert(base * (mods.len() - 1) + base == base * mods.len()) by (nonlinear_arith);
    }
}

/// Sums `base × bp / 10000` over the modifiers of type `t`.
fn sum_modifiers(mods: &Vec<SkillModifier>, t: ModifierType, base: i64) -> (r: i64)
    requires
        0 <= base <= 4 * MAX_BASE_BET,
        mods@.len() <= MAX_MODIFIERS,
        forall|j: int| 0 <= j < mods@.len() ==> (#[trigger] mods@[j]).value_bp <= 10000,
    ensures
        r == modifier_sum(mods@, t, base as int),
        0 <= r <= base * mods@.len(),
{
    let mut total: i64 = 0;
    let mut i: usize = 0;
    while i < mods.len()
        invariant
            i <= mods@.len(),
            0 <= base <= 4 * MAX_BASE_BET,
            mods@.len() <= MAX_MODIFIERS,
            forall|j: int| 0 <= j < mods@.len() ==> (#[trigger] mods@[j]).value_bp <= 10000,
            total == modifier_sum(mods@.subrange(0, i as int), t, base as int),
            0 <= total <= base * i,
        decreases mods@.len() - i,
    {
        let m = &mods[i];
        proof {
            assert(mods@.subrange(0, i + 1).drop_last() == mods@.subrange(0, i as int));
            assert(mods@.subrange(0, i + 1).last() == mods@[i as int]);
        }
        if m.modifier_type == t {
            let bp = m.value_bp;
            assert(0 <= (base as int) * (bp as int) <= 4 * MAX_BASE_BET * 10000) by (nonlinear_arith)
                requires
                    0 <= base <= 4 * MAX_BASE_BET,
                    bp <= 10000,
            ;
            let part: i64 = (base as i128 * bp as i128 / 10000) as i64;
            assert(0 <= (base as int) * (bp as int) / 10000 <= base) by (nonlinear_arith)
                requires
                    0 <= base,
                    bp <= 10000,
            ;
            assert(base * i + base == base * (i + 1)) by (nonlinear_arith);
            assert(base * (i + 1) <= 4 * MAX_BASE_BET * 16) by (nonlinear_arith)
                requires
                    0 <= base <= 4 * MAX_BASE_BET,
                    i + 1 <= 16,
            ;
            total = total + part;
        } else {
            assert(base * i <= base * (i + 1)) by (nonlinear_arith)
                requires
                    0 <= base,
            ;
        }
        i = i + 1;
    }
    proof {
        assert(mods@.subrange(0, mods@.len() as int) == mods@);
    }
    total
}

/// Computes pot, rake and each participant's beans at hand end.
pub struct SettlementCalculator {
    config: EconomyConfig,
}

impl SettlementCalculator {
    pub fn new(config: EconomyConfig) -> (r: SettlementCalculator)
        ensures
            r.config() == config,
    {
        SettlementCalculator { config }
    }

    pub closed spec fn config(&self) -> EconomyConfig {
        self.config
    }

    /// Rake of a hand of `n` players: `floor(base_bet × n × rake)`.
    pub fn rake(config: &EconomyConfig, n: usize) -> (r: i64)
        requires
            n <= MAX_PLAYERS,
            config.base_bet <= MAX_BASE_BET,
            config.rake_bp <= 10000,
        ensures
            r == rake_of(*config, n as int),
            0 <= r <= pot_of(*config, n as int),
    {
        assert(0 <= (config.base_bet as int) * (n as int) <= 4 * MAX_BASE_BET) by (nonlinear_arith)
            requires
                config.base_bet <= MAX_BASE_BET,
                n <= 4,
        ;
        let pot: i64 = config.base_bet as i64 * n as i64;
        assert(0 <= (pot as int) * (config.rake_bp as int) / 10000 <= pot) by (nonlinear_arith)
            requires
                0 <= pot,
                config.rake_bp <= 10000,
        ;
        (pot as i128 * config.rake_bp as i128 / 10000) as i64
    }

    /// Base, bonus and final beans of one outcome.
    fn settle_one(o: &GameOutcome, distributable: i64, bet: i64) -> (r: (i64, i64, i64))
        requires
            0 <= distributable <= 4 * MAX_BASE_BET,
            0 <= bet <= MAX_BASE_BET,
            o.skill_modifiers@.len() <= MAX_MODIFIERS,
            forall|j: int| 0 <= j < o.skill_modifiers@.len() ==> (#[trigger] o.skill_modifiers@[j]).value_bp <= 10000,
        ensures
            o.is_winner ==> r.0 == distributable && r.1 == modifier_sum(o.skill_modifiers@, ModifierType::WinBonus, distributable as int)
                && r.2 == (r.0 + r.1) * multiplier_of(*o),
            !o.is_winner ==> r.0 == -bet && r.1 == modifier_sum(o.skill_modifiers@, ModifierType::LossReduction, bet as int)
                && r.2 == r.0 + r.1,
            -MAX_BASE_BET <= r.2 <= FINAL_BOUND,
    {
        if o.is_winner {
            let bonus = sum_modifiers(&o.skill_modifiers, ModifierType::WinBonus, distributable);
            let m1: i64 = if o.is_zimo { 2 } else { 1 };
            let m2: i64 = if o.is_tianhu { 2 } else { 1 };
            let m3: i64 = if o.is_dihu { 2 } else { 1 };
            assert(0 <= (distributable as int) * (o.skill_modifiers@.len() as int) <= 4 * MAX_BASE_BET * 16) by (nonlinear_arith)
                requires
                    0 <= distributable <= 4 * MAX_BASE_BET,
                    o.skill_modifiers@.len() <= 16,
            ;
            let sum: i64 = distributable + bonus;
            assert(0 <= (sum as int) * ((m1 * m2 * m3) as int) <= 4 * MAX_BASE_BET * 17 * 8) by (nonlinear_arith)
                requires
                    0 <= sum <= 4 * MAX_BASE_BET * 17,
                    1 <= m1 * m2 * m3 <= 8,
            ;
            let fin: i64 = sum * (m1 * m2 * m3);
            (distributable, bonus, fin)
        } else {
            let reduction = sum_modifiers(&o.skill_modifiers, ModifierType::LossReduction, bet);
            assert(0 <= (bet as int) * (o.skill_modifiers@.len() as int) <= MAX_BASE_BET * 16) by (nonlinear_arith)
                requires
                    0 <= bet <= MAX_BASE_BET,
                    o.skill_modifiers@.len() <= 16,
            ;
            (-bet, reduction, -bet + reduction)
        }
    }

    /// Settles a hand: pot `base_bet × N`, rake off the pot, the winner takes the rest
    /// plus win bonuses times `2^(zimo + tianhu + dihu)`, each loser pays the base bet less
    /// loss reductions. What the finals leave over or short, the residue, accrues to the
    /// rake: the house take (rake plus residue) is booked as the `rake_deduction` of the
    /// first winner (of the first participant when nobody won), so finals and house take
    /// sum to zero. Rating changes are left at 0 for the ranking update to report.
    pub fn calculate_settlement(
        &self,
        _game_state: &GameState,
        outcomes: Vec<GameOutcome>,
        config: &EconomyConfig,
    ) -> (r: Vec<SettlementResult>)
        requires
            settlement_inputs_ok(outcomes@, *config),
        ensures
            r@.len() == outcomes@.len(),
            forall|i: int| 0 <= i < r@.len() ==> {
                let o = outcomes@[i];
                let n = outcomes@.len() as int;
                &&& (#[trigger] r@[i]).player_id == o.player_id
                &&& r@[i].outcome == o
                &&& r@[i].base_beans == base_of(o, *config, n)
                &&& r@[i].skill_bonus == bonus_of(o, *config, n)
                &&& r@[i].final_beans == final_of(o, *config, n)
                &&& r@[i].rake_deduction == if house_index(outcomes@, i) {
                    rake_of(*config, n) + residue_of(outcomes@, *config, n) } else { 0 }
                &&& r@[i].rating_change == 0
                &&& r@[i].new_tier.is_none()
            },
            settled_sum(r@) == 0,
    {
        let n = outcomes.len();
        let ghost os = outcomes@;
        proof {
            assert forall|j: int| 0 <= j < os.len() implies (#[trigger] os[j]).skill_modifiers@.len() <= MAX_MODIFIERS by {}
        }
        let rake = SettlementCalculator::rake(config, n);
        assert(0 <= (config.base_bet as int) * (n as int) <= 4 * MAX_BASE_BET) by (nonlinear_arith)
            requires
                config.base_bet <= MAX_BASE_BET,
                n <= 4,
        ;
        let pot: i64 = config.base_bet as i64 * n as i64;
        let distributable: i64 = pot - rake;
        let bet: i64 = config.base_bet as i64;
        // First pass: every final, their total, and where the house take is booked.
        let mut finals: Vec<(i64, i64, i64)> = Vec::new();
        let mut total: i64 = 0;
        let mut house: usize = 0;
        let mut found = false;
        let mut i: usize = 0;
        while i < n
            invariant
                i <= n,
                n == os.len(),
                n == outcomes@.len(),
                outcomes@ == os,
                settlement_inputs_ok(os, *config),
                distributable == distributable_of(*config, n as int),
                0 <= distributable <= 4 * MAX_BASE_BET,
                bet == config.base_bet,
                finals@.len() == i,
                forall|j: int| 0 <= j < i ==> {
                    &&& (#[trigger] finals@[j]).0 == base_of(os[j], *config, n as int)
                    &&& finals@[j].1 == bonus_of(os[j], *config, n as int)
                    &&& finals@[j].2 == final_of(os[j], *config, n as int)
                },
                total == finals_sum(os.subrange(0, i as int), *config, n as int),
                -(i as int) * MAX_BASE_BET <= total <= (i as int) * FINAL_BOUND,
                found == (winners(os.subrange(0, i as int)) > 0),
                found ==> first_winner_at(os, house as int),
                !found ==> house == 0,
            decreases n - i,
        {
            let o = &outcomes[i];
            proof {
                assert(o.skill_modifiers@.len() <= MAX_MODIFIERS);
                assert forall|j: int| 0 <= j < o.skill_modifiers@.len() implies (#[trigger] o.skill_modifiers@[j]).value_bp <= 10000 by {}
            }
            let f = SettlementCalculator::settle_one(o, distributable, bet);
            proof {
                let pre = os.subrange(0, i + 1);
                assert(pre.drop_last() == os.subrange(0, i as int));
                assert(pre.last() == os[i as int]);
                assert(winners(pre) == winners(os.subrange(0, i as int)) + if os[i as int].is_winner { 1int } else { 0int });
                lemma_winners_count(os.subrange(0, i as int));
                if !found && os[i as int].is_winner {
                    lemma_no_winner_before(os, i as int);
                }
                assert((i as int) * FINAL_BOUND + FINAL_BOUND == (i as int + 1) * FINAL_BOUND) by (nonlinear_arith);
                assert((i as int) * MAX_BASE_BET + MAX_BASE_BET == (i as int + 1) * MAX_BASE_BET) by (nonlinear_arith);
                assert((i as int + 1) * FINAL_BOUND <= 4 * FINAL_BOUND) by (nonlinear_arith)
                    requires
                        i + 1 <= 4,
                ;
                assert((i as int + 1) * MAX_BASE_BET <= 4 * MAX_BASE_BET) by (nonlinear_arith)
                    requires
                        i + 1 <= 4,
                ;
            }
            if !found && o.is_winner {
                house = i;
                found = true;
            }
            total = total + f.2;
            finals.push(f);
            i = i + 1;
        }
        proof {
            assert(os.subrange(0, n as int) == os);
            lemma_house_index(os, house as int, found);
        }
        let take: i64 = -total;
        let mut results: Vec<SettlementResult> = Vec::new();
        let mut rest = outcomes;
        let mut i: usize = 0;
        while i < n
            invariant
                i <= n,
                n == os.len(),
                rest@ == os.subrange(i as int, n as int),
                results@.len() == i,
                finals@.len() == n,
                rake == rake_of(*config, n as int),
                take == -finals_sum(os, *config, n as int),
                n > 0 ==> house < n,
                forall|j: int| 0 <= j < n ==> house_index(os, j) == (j == house),
                forall|j: int| 0 <= j < n ==> {
                    &&& (#[trigger] finals@[j]).0 == base_of(os[j], *config, n as int)
                    &&& finals@[j].1 == bonus_of(os[j], *config, n as int)
                    &&& finals@[j].2 == final_of(os[j], *config, n as int)
                },
                forall|j: int| 0 <= j < i ==> {
                    let o = os[j];
                    &&& (#[trigger] results@[j]).player_id == o.player_id
                    &&& results@[j].outcome == o
                    &&& results@[j].base_beans == base_of(o, *config, n as int)
                    &&& results@[j].skill_bonus == bonus_of(o, *config, n as int)
                    &&& results@[j].final_beans == final_of(o, *config, n as int)
                    &&& results@[j].rake_deduction == if j == house { take as int } else { 0 }
                    &&& results@[j].rating_change == 0
                    &&& results@[j].new_tier.is_none()
                },
                settled_sum(results@) == finals_sum(os.subrange(0, i as int), *config, n as int)
                    + if house < i { take as int } else { 0 },
            decreases n - i,
        {
            let o = rest.remove(0);
            proof {
                assert(o == os[i as int]);
            }
            let f = finals[i];
            let pid = o.player_id;
            let ghost before = results@;
            results.push(SettlementResult {
                player_id: pid,
                outcome: o,
                base_beans: f.0,
                skill_bonus: f.1,
                rake_deduction: if i == house { take } else { 0 },
                final_beans: f.2,
                rating_change: 0,
                new_tier: None,
            });
            proof {
                let pre = os.subrange(0, i + 1);
                assert(pre.drop_last() == os.subrange(0, i as int));
                assert(pre.last() == os[i as int]);
                assert(results@.drop_last() == before);
            }
            i = i + 1;
        }
        proof {
            assert(os.subrange(0, n as int) == os);
            if n == 0 {
                assert(results@.len() == 0);
            }
        }
        results
    }

    /// Duo from huxi by the step table.
    pub fn calculate_duo_from_huxi(&self, huxi: u8) -> (r: u8)
        ensures
            r as int == duo_of(huxi as int),
    {
        calculate_duo(huxi)
    }

    /// Fan: duo, plus 1 for zimo, 2 for tianhu and 2 for dihu.
    pub fn calculate_fan(&self, duo: u8, is_zimo: bool, is_tianhu: bool, is_dihu: bool) -> (r: u8)
        requires
            duo <= 250,
        ensures
            r == duo + (if is_zimo { 1int } else { 0int }) + (if is_tianhu { 2int } else { 0int }) + (
            if is_dihu { 2int } else { 0int }),
    {
        let mut fan = duo;
        if is_zimo {
            fan = fan + 1;
        }
        if is_tianhu {
            fan = fan + 2;
        }
        if is_dihu {
            fan = fan + 2;
        }
        fan
    }
}

/// Currency balances: the finals plus the house take (the rake and the residue that
/// accrues to it) sum to zero.
pub proof fn lemma_currency_conserved(os: Seq<GameOutcome>, cfg: EconomyConfig)
    ensures
        finals_sum(os, cfg, os.len() as int) + (rake_of(cfg, os.len() as int) + residue_of(
            os,
            cfg,
            os.len() as int,
        )) == 0,
{
}

/// With exactly one winner and no modifiers or multipliers, the residue is minus the
/// base bet: the winner's final counts the winner's own stake, which the house take
/// books back.
pub proof fn lemma_plain_residue(os: Seq<GameOutcome>, cfg: EconomyConfig)
    requires
        winners(os) == 1,
        forall|i: int| 0 <= i < os.len() ==> plain_outcome(#[trigger] os[i]),
    ensures
        residue_of(os, cfg, os.len() as int) == -cfg.base_bet,
{
    lemma_finals_sum_plain(os, cfg, os.len() as int);
    let n = os.len() as int;
    let d = distributable_of(cfg, n);
    let b = cfg.base_bet as int;
    assert(winners(os) * d == d);
    assert((n - 1) * b == n * b - b) by (nonlinear_arith);
    assert(pot_of(cfg, n) == b * n);
    assert(b * n == n * b) by (nonlinear_arith);
}

proof fn lemma_finals_sum_plain(os: Seq<GameOutcome>, cfg: EconomyConfig, n: int)
    requires
        forall|i: int| 0 <= i < os.len() ==> plain_outcome(#[trigger] os[i]),
    ensures
        finals_sum(os, cfg, n) == winners(os) * distributable_of(cfg, n) - (os.len() - winners(os))
            * cfg.base_bet,
    decreases os.len(),
{
    if os.len() == 0 {
        assert(winners(os) == 0);
        assert(finals_sum(os, cfg, n) == 0);
        assert(winners(os) * distributable_of(cfg, n) == 0);
        assert((os.len() - winners(os)) * cfg.base_bet == 0);
    }
    if os.len() > 0 {
        let o = os.last();
        assert(o == os[os.len() - 1]);
        assert forall|i: int| 0 <= i < os.drop_last().len() implies plain_outcome(#[trigger] os.drop_last()[i]) by {
            assert(os.drop_last()[i] == os[i]);
        }
        lemma_finals_sum_plain(os.drop_last(), cfg, n);
        assert(modifier_sum(o.skill_modifiers@, ModifierType::WinBonus, distributable_of(cfg, n)) == 0);
        assert(modifier_sum(o.skill_modifiers@, ModifierType::LossReduction, cfg.base_bet as int) == 0);
        assert(finals_sum(os, cfg, n) == finals_sum(os.drop_last(), cfg, n) + final_of(o, cfg, n));
        assert(winners(os) == winners(os.drop_last()) + if o.is_winner { 1int } else { 0int });
        assert(multiplier_of(o) == 1);
        let w = winners(os.drop_last());
        let l = os.drop_last().len() - w;
        let d = distributable_of(cfg, n);
        let b = cfg.base_bet as int;
        if o.is_winner {
            let m = multiplier_of(o);
            assert((d + 0) * m == d) by (nonlinear_arith)
                requires
                    m == 1,
            ;
            assert(final_of(o, cfg, n) == d);
            assert(w * d - l * b + d == (w + 1) * d - l * b) by (nonlinear_arith);
            assert(winners(os) == w + 1);
            assert(os.len() - winners(os) == l);
            assert(winners(os) * d == (w + 1) * d);
            assert((os.len() - winners(os)) * b == l * b);
        } else {
            assert(final_of(o, cfg, n) == -b);
            assert(w * d - l * b - b == w * d - (l + 1) * b) by (nonlinear_arith);
            assert(winners(os) == w);
            assert(os.len() - winners(os) == l + 1);
            assert(winners(os) * d == w * d);
            assert((os.len() - winners(os)) * b == (l + 1) * b);
        }
    }
}

} // verus!
