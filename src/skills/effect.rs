use vstd::prelude::*;
use vstd::string::*;
use crate::card::{Card, big_glyph, small_glyph};
use crate::game::GameState;
use crate::player::PlayerId;
use crate::text::{decimal, decimal_text};

verus! {

/// Typed data a skill's effect carries. Rates are in basis points (1/10000).
#[derive(Debug, Clone)]
pub enum EffectData {
    /// The next player's meld tendency: runs favoured or not, with a confidence in percent.
    Tendency { runs_favoured: bool, confidence_pct: u8 },
    /// Most recent discards, newest first.
    Discards(Vec<Card>),
    /// Cards left in the deck.
    Remaining(usize),
    /// Size of the undrawn deck.
    DeckSize(usize),
    FanReduction(u8),
    LossReduction(u64),
    WinBonus(u64),
    FanRebate { fan_threshold: u8, bonus_bp: u64 },
    Gamble { win_bonus_bp: u64, loss_penalty_bp: u64 },
    TargetPenalty { target: PlayerId, penalty_bp: u64 },
}

/// Kinds of effect a skill can have.
#[derive(Debug, Clone)]
pub enum SkillEffect {
    RevealInformation(InformationType),
    ModifyEconomy(EconomyModifier),
    AllowUndo,
    ForceAction(ForcedAction),
    BuffDebuff(BuffDebuffEffect),
}

#[derive(Debug, Clone)]
pub enum InformationType {
    NextPlayerTendency,
    RecentDiscards(usize),
    RemainingCards(Card),
    DeckSize,
    OpponentHandCount(PlayerId),
}

/// Settlement modifiers, in basis points.
#[derive(Debug, Clone)]
pub enum EconomyModifier {
    WinBonus(u64),
    LossReduction(u64),
    TargetPenalty { target: PlayerId, percentage_bp: u64 },
}

#[derive(Debug, Clone)]
pub enum ForcedAction {
    MustPlayCard,
    CannotPeng,
    MustPeng(Card),
}

#[derive(Debug, Clone, Copy, PartialEq, Eq, Structural)]
pub enum BuffDebuffEffect {
    DoubleHuxi,
    ExtraDraw(u8),
    CardRevealDuration(u8),
}

/// The glyph of a card.
pub open spec fn glyph_of(c: Card) -> Seq<char> {
    if c.is_big() { big_glyph(c.val()) } else { small_glyph(c.val()) }
}

/// The `n` most recent discards, newest first.
pub open spec fn recent_discards(d: Seq<(PlayerId, Card)>, n: int) -> Seq<Card> {
    let k = if n < d.len() { n } else { d.len() as int };
    Seq::new(k as nat, |i: int| d[d.len() - 1 - i].1)
}

/// Quoted glyphs separated by `, `.
pub open spec fn glyph_items(s: Seq<Card>) -> Seq<char>
    decreases s.len(),
{
    if s.len() == 0 {
        Seq::empty()
    } else if s.len() == 1 {
        "\""@ + glyph_of(s[0]) + "\""@
    } else {
        glyph_items(s.drop_last()) + ", \""@ + glyph_of(s.last()) + "\""@
    }
}

/// A list of card glyphs as `["一", "贰"]`.
pub open spec fn glyph_list(s: Seq<Card>) -> Seq<char> {
    "["@ + glyph_items(s) + "]"@
}

/// The `n` most recent discards, newest first.
pub fn recent_discard_cards(game_state: &GameState, n: usize) -> (r: Vec<Card>)
    ensures
        r@ == recent_discards(game_state.discard_pile@, n as int),
{
    let len = game_state.discard_pile.len();
    let k = if n < len { n } else { len };
    let mut out: Vec<Card> = Vec::new();
    let mut i: usize = 0;
    while i < k
        invariant
            i <= k,
            k <= len,
            len == game_state.discard_pile@.len(),
            k == (if n < len { n } else { len }),
            out@ == recent_discards(game_state.discard_pile@, n as int).subrange(0, i as int),
        decreases k - i,
    {
        out.push(game_state.discard_pile[len - 1 - i].1);
        proof {
            assert(out@ =~= recent_discards(game_state.discard_pile@, n as int).subrange(0, i + 1));
        }
        i = i + 1;
    }
    proof {
        assert(out@ =~= recent_discards(game_state.discard_pile@, n as int));
    }
    out
}

/// The glyphs of `cards` as `["一", "贰"]`.
pub fn glyph_list_text(cards: &Vec<Card>) -> (r: String)
    ensures
        r@ == glyph_list(cards@),
{
    let mut items = String::new();
    let mut i: usize = 0;
    while i < cards.len()
        invariant
            i <= cards@.len(),
            items@ == glyph_items(cards@.subrange(0, i as int)),
        decreases cards@.len() - i,
    {
        let g = cards[i].to_string();
        proof {
            let s = cards@.subrange(0, i + 1);
            assert(s.drop_last() == cards@.subrange(0, i as int));
            assert(s.last() == cards@[i as int]);
            assert(s[0] == cards@[0]);
        }
        if i == 0 {
            items = String::from_str("\"").concat(g.as_str()).concat("\"");
        } else {
            items = items.concat(", \"").concat(g.as_str()).concat("\"");
        }
        i = i + 1;
    }
    proof {
        assert(cards@.subrange(0, cards@.len() as int) == cards@);
    }
    String::from_str("[").concat(items.as_str()).concat("]")
}

/// Text and data an applied effect produced.
#[derive(Debug, Clone)]
pub struct EffectResult {
    pub effect_type: String,
    pub description: String,
    pub data: Option<EffectData>,
}

impl EffectResult {
    pub fn new(effect_type: &str, description: String) -> (r: EffectResult)
        ensures
            r.effect_type@ == effect_type@,
            r.description@ == description@,
            r.data.is_none(),
    {
        EffectResult { effect_type: String::from_str(effect_type), description, data: None }
    }

    pub fn with_data(self, data: EffectData) -> (r: EffectResult)
        ensures
            r.effect_type@ == self.effect_type@,
            r.description@ == self.description@,
            r.data == Some(data),
    {
        EffectResult { effect_type: self.effect_type, description: self.description, data: Some(data) }
    }
}

/// Whole percent of a rate in basis points, rounded to nearest.
pub open spec fn percent_of(bp: u64) -> nat {
    ((bp as nat) + 50) / 100
}

/// Applies a skill effect to a game.
pub trait EffectHandler {
    /// The data that applying `effect` to `game` yields.
    spec fn spec_applied(&self, effect: SkillEffect, game: GameState, data: Option<EffectData>, description: Seq<char>) -> bool;

    fn apply(&self, effect: &SkillEffect, game_state: &mut GameState, player_id: PlayerId) -> (r: EffectResult)
        requires
            old(game_state).wf(),
        ensures
            *final(game_state) == *old(game_state),
            self.spec_applied(*effect, *old(game_state), r.data, r.description@);
}

/// The standard effects: information reveals only pool-level facts (deck size, public
/// discards), economy modifiers are acknowledged.
pub struct StandardEffectHandler;

impl EffectHandler for StandardEffectHandler {
    open spec fn spec_applied(&self, effect: SkillEffect, game: GameState, data: Option<EffectData>, description: Seq<char>) -> bool {
        match effect {
            SkillEffect::RevealInformation(InformationType::DeckSize) => {
                let n = game.deck.view_cards().len();
                &&& data == Some(EffectData::DeckSize(n as usize))
                &&& description == "牌堆剩余 "@ + decimal(n) + " 张牌"@
            },
            SkillEffect::RevealInformation(InformationType::RecentDiscards(n)) => match data {
                Some(EffectData::Discards(v)) => v@ == recent_discards(game.discard_pile@, n as int)
                    && description == "最近弃牌: "@ + glyph_list(v@),
                _ => false,
            },
            SkillEffect::RevealInformation(_) => data.is_none() && description == "获取了隐藏信息"@,
            SkillEffect::ModifyEconomy(EconomyModifier::WinBonus(bp)) => data == Some(EffectData::WinBonus(bp))
                && description == "胡牌时欢乐豆额外 +"@ + decimal(percent_of(bp)) + "%"@,
            SkillEffect::ModifyEconomy(EconomyModifier::LossReduction(bp)) => data == Some(
                EffectData::LossReduction(bp),
            ) && description == "输牌时欢乐豆损失减少 "@ + decimal(percent_of(bp)) + "%"@,
            SkillEffect::ModifyEconomy(_) => data.is_none() && description == "经济效果已应用"@,
            SkillEffect::AllowUndo => data.is_none() && description == "出牌后2秒内可撤回"@,
            _ => data.is_none() && description == "技能效果已触发"@,
        }
    }

    fn apply(&self, effect: &SkillEffect, game_state: &mut GameState, player_id: PlayerId) -> (r: EffectResult) {
        match effect {
            SkillEffect::RevealInformation(info_type) => {
                match info_type {
                    InformationType::DeckSize => {
                        let size = game_state.deck.remaining();
                        let text = String::from_str("牌堆剩余 ").concat(decimal_text(size as u64).as_str()).concat(" 张牌");
                        EffectResult::new("明算", text).with_data(EffectData::DeckSize(size))
                    },
                    InformationType::RecentDiscards(n) => {
                        let recent = recent_discard_cards(game_state, *n);
                        let text = String::from_str("最近弃牌: ").concat(glyph_list_text(&recent).as_str());
                        EffectResult::new("观流", text).with_data(EffectData::Discards(recent))
                    },
                    _ => EffectResult::new("信息", String::from_str("获取了隐藏信息")),
                }
            },
            SkillEffect::ModifyEconomy(modifier) => {
                match modifier {
                    EconomyModifier::WinBonus(bp) => {
                        let pct: u64 = *bp / 100 + if *bp % 100 >= 50 { 1 } else { 0 };
                        let text = String::from_str("胡牌时欢乐豆额外 +").concat(decimal_text(pct).as_str()).concat("%");
                        EffectResult::new("加码", text).with_data(EffectData::WinBonus(*bp))
                    },
                    EconomyModifier::LossReduction(bp) => {
                        let pct: u64 = *bp / 100 + if *bp % 100 >= 50 { 1 } else { 0 };
                        let text = String::from_str("输牌时欢乐豆损失减少 ").concat(decimal_text(pct).as_str()).concat("%");
                        EffectResult::new("稳豆", text).with_data(EffectData::LossReduction(*bp))
                    },
                    _ => EffectResult::new("经济", String::from_str("经济效果已应用")),
                }
            },
            SkillEffect::AllowUndo => EffectResult::new("稳手", String::from_str("出牌后2秒内可撤回")),
            _ => EffectResult::new("效果", String::from_str("技能效果已触发")),
        }
    }
}

} // verus!
