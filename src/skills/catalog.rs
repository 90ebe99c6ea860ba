use vstd::prelude::*;
use vstd::string::*;
use crate::constants::MIN_HUXI_TO_WIN;
use crate::game::{GameState, GamePhase};
use crate::hand::total_huxi;
use crate::player::PlayerId;
use crate::skills::{Skill, SkillCategory, SkillResult};
use crate::skills::effect::{EffectData, recent_discards, recent_discard_cards, glyph_list_text};
use crate::text::{decimal_text, id_text};

verus! {
/// 听势: 显示下家最近吃/碰牌的牌型倾向.
pub struct TingShiSkill;
impl Skill for TingShiSkill {
    open spec fn spec_id(&self) -> u32 {
        1
    }

    open spec fn spec_max_uses(&self) -> u8 {
        2
    }

    open spec fn spec_category(&self) -> SkillCategory {
        SkillCategory::Information
    }

    open spec fn spec_name(&self) -> Seq<char> {
        "听势"@
    }

    open spec fn spec_description(&self) -> Seq<char> {
        "显示下家最近吃/碰牌的牌型倾向"@
    }

    open spec fn spec_can_use(&self, game: GameState, player: PlayerId) -> bool {
        game.phase == GamePhase::Playing
    }

    open spec fn spec_succeeds(&self, game: GameState, player: PlayerId, target: Option<PlayerId>) -> bool {
        true
    }

    open spec fn spec_effect(&self, game: GameState, player: PlayerId, target: Option<PlayerId>, data: Option<EffectData>) -> bool {
        data == Some(EffectData::Tendency { runs_favoured: true, confidence_pct: 65 })
    }

    fn id(&self) -> (r: u32) {
        1
    }

    fn name(&self) -> (r: &'static str) {
        "听势"
    }

    fn description(&self) -> (r: &'static str) {
        "显示下家最近吃/碰牌的牌型倾向"
    }

    fn category(&self) -> (r: SkillCategory) {
        SkillCategory::Information
    }

    fn max_uses(&self) -> (r: u8) {
        2
    }

    fn can_use(&self, game_state: &GameState, _player_id: PlayerId) -> (r: bool) {
        game_state.phase == GamePhase::Playing
    }

    fn use_skill(&mut self, _game_state: &mut GameState, _player_id: PlayerId, _target: Option<PlayerId>) -> (r: SkillResult) {
        SkillResult::success("下家牌型倾向分析完成").with_data(EffectData::Tendency { runs_favoured: true, confidence_pct: 65 })
    }
}
/// 观流: 查看最近3张弃牌.
pub struct GuanLiuSkill;
impl Skill for GuanLiuSkill {
    open spec fn spec_id(&self) -> u32 {
        2
    }

    open spec fn spec_max_uses(&self) -> u8 {
        3
    }

    open spec fn spec_category(&self) -> SkillCategory {
        SkillCategory::Information
    }

    open spec fn spec_name(&self) -> Seq<char> {
        "观流"@
    }

    open spec fn spec_description(&self) -> Seq<char> {
        "查看最近3张弃牌"@
    }

    open spec fn spec_can_use(&self, game: GameState, player: PlayerId) -> bool {
        game.phase == GamePhase::Playing && game.discard_pile@.len() > 0
    }

    open spec fn spec_succeeds(&self, game: GameState, player: PlayerId, target: Option<PlayerId>) -> bool {
        true
    }

    open spec fn spec_effect(&self, game: GameState, player: PlayerId, target: Option<PlayerId>, data: Option<EffectData>) -> bool {
        match data { Some(EffectData::Discards(v)) => v@ == recent_discards(game.discard_pile@, 3), _ => false }
    }

    fn id(&self) -> (r: u32) {
        2
    }

    fn name(&self) -> (r: &'static str) {
        "观流"
    }

    fn description(&self) -> (r: &'static str) {
        "查看最近3张弃牌"
    }

    fn category(&self) -> (r: SkillCategory) {
        SkillCategory::Information
    }

    fn max_uses(&self) -> (r: u8) {
        3
    }

    fn can_use(&self, game_state: &GameState, _player_id: PlayerId) -> (r: bool) {
        game_state.phase == GamePhase::Playing && game_state.discard_pile.len() > 0
    }

    fn use_skill(&mut self, game_state: &mut GameState, _player_id: PlayerId, _target: Option<PlayerId>) -> (r: SkillResult) {
        let recent = recent_discard_cards(game_state, 3);
        let text = String::from_str("最近弃牌: ").concat(glyph_list_text(&recent).as_str());
        SkillResult::success(text.as_str()).with_data(EffectData::Discards(recent))
    }
}
/// 算余: 提示桌面尚余特定牌张数.
pub struct SuanYuSkill;
impl Skill for SuanYuSkill {
    open spec fn spec_id(&self) -> u32 {
        3
    }

    open spec fn spec_max_uses(&self) -> u8 {
        2
    }

    open spec fn spec_category(&self) -> SkillCategory {
        SkillCategory::Information
    }

    open spec fn spec_name(&self) -> Seq<char> {
        "算余"@
    }

    open spec fn spec_description(&self) -> Seq<char> {
        "提示桌面尚余特定牌张数"@
    }

    open spec fn spec_can_use(&self, game: GameState, player: PlayerId) -> bool {
        game.phase == GamePhase::Playing
    }

    open spec fn spec_succeeds(&self, game: GameState, player: PlayerId, target: Option<PlayerId>) -> bool {
        true
    }

    open spec fn spec_effect(&self, game: GameState, player: PlayerId, target: Option<PlayerId>, data: Option<EffectData>) -> bool {
        data == Some(EffectData::Remaining(game.deck.view_cards().len() as usize))
    }

    fn id(&self) -> (r: u32) {
        3
    }

    fn name(&self) -> (r: &'static str) {
        "算余"
    }

    fn description(&self) -> (r: &'static str) {
        "提示桌面尚余特定牌张数"
    }

    fn category(&self) -> (r: SkillCategory) {
        SkillCategory::Information
    }

    fn max_uses(&self) -> (r: u8) {
        2
    }

    fn can_use(&self, game_state: &GameState, _player_id: PlayerId) -> (r: bool) {
        game_state.phase == GamePhase::Playing
    }

    fn use_skill(&mut self, game_state: &mut GameState, _player_id: PlayerId, _target: Option<PlayerId>) -> (r: SkillResult) {
        let remaining = game_state.deck.remaining();
        let text = String::from_str("牌堆剩余 ").concat(decimal_text(remaining as u64).as_str()).concat(" 张牌");
        SkillResult::success(text.as_str()).with_data(EffectData::Remaining(remaining))
    }
}
/// 明算: 展示当前牌池剩余牌总数.
pub struct MingSuanSkill;
impl Skill for MingSuanSkill {
    open spec fn spec_id(&self) -> u32 {
        4
    }

    open spec fn spec_max_uses(&self) -> u8 {
        5
    }

    open spec fn spec_category(&self) -> SkillCategory {
        SkillCategory::Information
    }

    open spec fn spec_name(&self) -> Seq<char> {
        "明算"@
    }

    open spec fn spec_description(&self) -> Seq<char> {
        "展示当前牌池剩余牌总数"@
    }

    open spec fn spec_can_use(&self, game: GameState, player: PlayerId) -> bool {
        game.phase == GamePhase::Playing
    }

    open spec fn spec_succeeds(&self, game: GameState, player: PlayerId, target: Option<PlayerId>) -> bool {
        true
    }

    open spec fn spec_effect(&self, game: GameState, player: PlayerId, target: Option<PlayerId>, data: Option<EffectData>) -> bool {
        data == Some(EffectData::DeckSize(game.deck.view_cards().len() as usize))
    }

    fn id(&self) -> (r: u32) {
        4
    }

    fn name(&self) -> (r: &'static str) {
        "明算"
    }

    fn description(&self) -> (r: &'static str) {
        "展示当前牌池剩余牌总数"
    }

    fn category(&self) -> (r: SkillCategory) {
        SkillCategory::Information
    }

    fn max_uses(&self) -> (r: u8) {
        5
    }

    fn can_use(&self, game_state: &GameState, _player_id: PlayerId) -> (r: bool) {
        game_state.phase == GamePhase::Playing
    }

    fn use_skill(&mut self, game_state: &mut GameState, _player_id: PlayerId, _target: Option<PlayerId>) -> (r: SkillResult) {
        let total = game_state.deck.remaining();
        let text = String::from_str("牌池剩余 ").concat(decimal_text(total as u64).as_str()).concat(" 张");
        SkillResult::success(text.as_str()).with_data(EffectData::DeckSize(total))
    }
}
/// 稳手: 出牌后2秒内可撤回1次.
pub struct WenShouSkill {
    pub undo_available: bool,
}

impl WenShouSkill {
    pub fn new() -> (r: WenShouSkill)
        ensures
            !r.undo_available,
    {
        WenShouSkill { undo_available: false }
    }
}
impl Skill for WenShouSkill {
    open spec fn spec_id(&self) -> u32 {
        5
    }

    open spec fn spec_max_uses(&self) -> u8 {
        1
    }

    open spec fn spec_category(&self) -> SkillCategory {
        SkillCategory::ErrorCorrection
    }

    open spec fn spec_name(&self) -> Seq<char> {
        "稳手"@
    }

    open spec fn spec_description(&self) -> Seq<char> {
        "出牌后2秒内可撤回1次"@
    }

    open spec fn spec_can_use(&self, game: GameState, player: PlayerId) -> bool {
        game.phase == GamePhase::Playing && self.undo_available
    }

    open spec fn spec_succeeds(&self, game: GameState, player: PlayerId, target: Option<PlayerId>) -> bool {
        true
    }

    open spec fn spec_effect(&self, game: GameState, player: PlayerId, target: Option<PlayerId>, data: Option<EffectData>) -> bool {
        data.is_none()
    }

    fn id(&self) -> (r: u32) {
        5
    }

    fn name(&self) -> (r: &'static str) {
        "稳手"
    }

    fn description(&self) -> (r: &'static str) {
        "出牌后2秒内可撤回1次"
    }

    fn category(&self) -> (r: SkillCategory) {
        SkillCategory::ErrorCorrection
    }

    fn max_uses(&self) -> (r: u8) {
        1
    }

    fn can_use(&self, game_state: &GameState, _player_id: PlayerId) -> (r: bool) {
        game_state.phase == GamePhase::Playing && self.undo_available
    }

    fn use_skill(&mut self, _game_state: &mut GameState, _player_id: PlayerId, _target: Option<PlayerId>) -> (r: SkillResult) {
        self.undo_available = false;
        SkillResult::success("出牌已撤回")
    }
}
/// 缓冲: 被点炮时最多减1番.
pub struct HuanChongSkill;
impl Skill for HuanChongSkill {
    open spec fn spec_id(&self) -> u32 {
        6
    }

    open spec fn spec_max_uses(&self) -> u8 {
        1
    }

    open spec fn spec_category(&self) -> SkillCategory {
        SkillCategory::ErrorCorrection
    }

    open spec fn spec_name(&self) -> Seq<char> {
        "缓冲"@
    }

    open spec fn spec_description(&self) -> Seq<char> {
        "被点炮时最多减1番"@
    }

    open spec fn spec_can_use(&self, game: GameState, player: PlayerId) -> bool {
        true
    }

    open spec fn spec_succeeds(&self, game: GameState, player: PlayerId, target: Option<PlayerId>) -> bool {
        true
    }

    open spec fn spec_effect(&self, game: GameState, player: PlayerId, target: Option<PlayerId>, data: Option<EffectData>) -> bool {
        data == Some(EffectData::FanReduction(1))
    }

    fn id(&self) -> (r: u32) {
        6
    }

    fn name(&self) -> (r: &'static str) {
        "缓冲"
    }

    fn description(&self) -> (r: &'static str) {
        "被点炮时最多减1番"
    }

    fn category(&self) -> (r: SkillCategory) {
        SkillCategory::ErrorCorrection
    }

    fn max_uses(&self) -> (r: u8) {
        1
    }

    fn can_use(&self, _game_state: &GameState, _player_id: PlayerId) -> (r: bool) {
        true
    }

    fn use_skill(&mut self, _game_state: &mut GameState, _player_id: PlayerId, _target: Option<PlayerId>) -> (r: SkillResult) {
        SkillResult::success("番数减免已生效").with_data(EffectData::FanReduction(1))
    }
}
/// 重整: 重排手牌显示顺序.
pub struct ChongZhengSkill;
impl Skill for ChongZhengSkill {
    open spec fn spec_id(&self) -> u32 {
        7
    }

    open spec fn spec_max_uses(&self) -> u8 {
        10
    }

    open spec fn spec_category(&self) -> SkillCategory {
        SkillCategory::ErrorCorrection
    }

    open spec fn spec_name(&self) -> Seq<char> {
        "重整"@
    }

    open spec fn spec_description(&self) -> Seq<char> {
        "重排手牌显示顺序"@
    }

    open spec fn spec_can_use(&self, game: GameState, player: PlayerId) -> bool {
        game.has_hand(player)
    }

    open spec fn spec_succeeds(&self, game: GameState, player: PlayerId, target: Option<PlayerId>) -> bool {
        game.has_hand(player)
    }

    open spec fn spec_effect(&self, game: GameState, player: PlayerId, target: Option<PlayerId>, data: Option<EffectData>) -> bool {
        data.is_none()
    }

    fn id(&self) -> (r: u32) {
        7
    }

    fn name(&self) -> (r: &'static str) {
        "重整"
    }

    fn description(&self) -> (r: &'static str) {
        "重排手牌显示顺序"
    }

    fn category(&self) -> (r: SkillCategory) {
        SkillCategory::ErrorCorrection
    }

    fn max_uses(&self) -> (r: u8) {
        10
    }

    fn can_use(&self, game_state: &GameState, player_id: PlayerId) -> (r: bool) {
        game_state.has_hand_of(player_id)
    }

    fn use_skill(&mut self, game_state: &mut GameState, player_id: PlayerId, _target: Option<PlayerId>) -> (r: SkillResult) {
        if game_state.sort_hand(player_id) {
            SkillResult::success("手牌已重新排序")
        } else {
            SkillResult::failure("无法找到手牌")
        }
    }
}
/// 稳豆: 本局失败时欢乐豆损失减少5%.
pub struct WenDouSkill;
impl Skill for WenDouSkill {
    open spec fn spec_id(&self) -> u32 {
        8
    }

    open spec fn spec_max_uses(&self) -> u8 {
        1
    }

    open spec fn spec_category(&self) -> SkillCategory {
        SkillCategory::Economy
    }

    open spec fn spec_name(&self) -> Seq<char> {
        "稳豆"@
    }

    open spec fn spec_description(&self) -> Seq<char> {
        "本局失败时欢乐豆损失减少5%"@
    }

    open spec fn spec_can_use(&self, game: GameState, player: PlayerId) -> bool {
        true
    }

    open spec fn spec_succeeds(&self, game: GameState, player: PlayerId, target: Option<PlayerId>) -> bool {
        true
    }

    open spec fn spec_effect(&self, game: GameState, player: PlayerId, target: Option<PlayerId>, data: Option<EffectData>) -> bool {
        data == Some(EffectData::LossReduction(500))
    }

    fn id(&self) -> (r: u32) {
        8
    }

    fn name(&self) -> (r: &'static str) {
        "稳豆"
    }

    fn description(&self) -> (r: &'static str) {
        "本局失败时欢乐豆损失减少5%"
    }

    fn category(&self) -> (r: SkillCategory) {
        SkillCategory::Economy
    }

    fn max_uses(&self) -> (r: u8) {
        1
    }

    fn can_use(&self, _game_state: &GameState, _player_id: PlayerId) -> (r: bool) {
        true
    }

    fn use_skill(&mut self, _game_state: &mut GameState, _player_id: PlayerId, _target: Option<PlayerId>) -> (r: SkillResult) {
        SkillResult::success("稳豆效果已激活").with_data(EffectData::LossReduction(500))
    }
}
/// 加码: 胡牌时额外获得3%欢乐豆.
pub struct JiaMaSkill;
impl Skill for JiaMaSkill {
    open spec fn spec_id(&self) -> u32 {
        9
    }

    open spec fn spec_max_uses(&self) -> u8 {
        1
    }

    open spec fn spec_category(&self) -> SkillCategory {
        SkillCategory::Economy
    }

    open spec fn spec_name(&self) -> Seq<char> {
        "加码"@
    }

    open spec fn spec_description(&self) -> Seq<char> {
        "胡牌时额外获得3%欢乐豆"@
    }

    open spec fn spec_can_use(&self, game: GameState, player: PlayerId) -> bool {
        true
    }

    open spec fn spec_succeeds(&self, game: GameState, player: PlayerId, target: Option<PlayerId>) -> bool {
        true
    }

    open spec fn spec_effect(&self, game: GameState, player: PlayerId, target: Option<PlayerId>, data: Option<EffectData>) -> bool {
        data == Some(EffectData::WinBonus(300))
    }

    fn id(&self) -> (r: u32) {
        9
    }

    fn name(&self) -> (r: &'static str) {
        "加码"
    }

    fn description(&self) -> (r: &'static str) {
        "胡牌时额外获得3%欢乐豆"
    }

    fn category(&self) -> (r: SkillCategory) {
        SkillCategory::Economy
    }

    fn max_uses(&self) -> (r: u8) {
        1
    }

    fn can_use(&self, _game_state: &GameState, _player_id: PlayerId) -> (r: bool) {
        true
    }

    fn use_skill(&mut self, _game_state: &mut GameState, _player_id: PlayerId, _target: Option<PlayerId>) -> (r: SkillResult) {
        SkillResult::success("加码效果已激活").with_data(EffectData::WinBonus(300))
    }
}
/// 提速: 胡牌≥6番时返还2%欢乐豆.
pub struct TiSuSkill;
impl Skill for TiSuSkill {
    open spec fn spec_id(&self) -> u32 {
        10
    }

    open spec fn spec_max_uses(&self) -> u8 {
        1
    }

    open spec fn spec_category(&self) -> SkillCategory {
        SkillCategory::Economy
    }

    open spec fn spec_name(&self) -> Seq<char> {
        "提速"@
    }

    open spec fn spec_description(&self) -> Seq<char> {
        "胡牌≥6番时返还2%欢乐豆"@
    }

    open spec fn spec_can_use(&self, game: GameState, player: PlayerId) -> bool {
        true
    }

    open spec fn spec_succeeds(&self, game: GameState, player: PlayerId, target: Option<PlayerId>) -> bool {
        true
    }

    open spec fn spec_effect(&self, game: GameState, player: PlayerId, target: Option<PlayerId>, data: Option<EffectData>) -> bool {
        data == Some(EffectData::FanRebate { fan_threshold: 6, bonus_bp: 200 })
    }

    fn id(&self) -> (r: u32) {
        10
    }

    fn name(&self) -> (r: &'static str) {
        "提速"
    }

    fn description(&self) -> (r: &'static str) {
        "胡牌≥6番时返还2%欢乐豆"
    }

    fn category(&self) -> (r: SkillCategory) {
        SkillCategory::Economy
    }

    fn max_uses(&self) -> (r: u8) {
        1
    }

    fn can_use(&self, _game_state: &GameState, _player_id: PlayerId) -> (r: bool) {
        true
    }

    fn use_skill(&mut self, _game_state: &mut GameState, _player_id: PlayerId, _target: Option<PlayerId>) -> (r: SkillResult) {
        SkillResult::success("提速效果已激活").with_data(EffectData::FanRebate { fan_threshold: 6, bonus_bp: 200 })
    }
}
/// 孤注: 听牌后宣告，胡牌+6%豆，失败-6%.
pub struct GuZhuSkill {
    pub active: bool,
}

impl GuZhuSkill {
    pub fn new() -> (r: GuZhuSkill)
        ensures
            !r.active,
    {
        GuZhuSkill { active: false }
    }
}
impl Skill for GuZhuSkill {
    open spec fn spec_id(&self) -> u32 {
        11
    }

    open spec fn spec_max_uses(&self) -> u8 {
        1
    }

    open spec fn spec_category(&self) -> SkillCategory {
        SkillCategory::Risk
    }

    open spec fn spec_name(&self) -> Seq<char> {
        "孤注"@
    }

    open spec fn spec_description(&self) -> Seq<char> {
        "听牌后宣告，胡牌+6%豆，失败-6%"@
    }

    open spec fn spec_can_use(&self, game: GameState, player: PlayerId) -> bool {
        !self.active && game.has_hand(player) && total_huxi(game.hands@[game.seat(player)].meld_seq()) >= MIN_HUXI_TO_WIN
    }

    open spec fn spec_succeeds(&self, game: GameState, player: PlayerId, target: Option<PlayerId>) -> bool {
        true
    }

    open spec fn spec_effect(&self, game: GameState, player: PlayerId, target: Option<PlayerId>, data: Option<EffectData>) -> bool {
        data == Some(EffectData::Gamble { win_bonus_bp: 600, loss_penalty_bp: 600 })
    }

    fn id(&self) -> (r: u32) {
        11
    }

    fn name(&self) -> (r: &'static str) {
        "孤注"
    }

    fn description(&self) -> (r: &'static str) {
        "听牌后宣告，胡牌+6%豆，失败-6%"
    }

    fn category(&self) -> (r: SkillCategory) {
        SkillCategory::Risk
    }

    fn max_uses(&self) -> (r: u8) {
        1
    }

    fn can_use(&self, game_state: &GameState, player_id: PlayerId) -> (r: bool) {
        !self.active && match game_state.can_hu(player_id) { Ok(b) => b, Err(_) => false }
    }

    fn use_skill(&mut self, _game_state: &mut GameState, _player_id: PlayerId, _target: Option<PlayerId>) -> (r: SkillResult) {
        self.active = true;
        SkillResult::success("孤注一掷！胡牌+6%豆，失败-6%").with_data(EffectData::Gamble { win_bonus_bp: 600, loss_penalty_bp: 600 })
    }
}
/// 反压: 指定对手：对方失败-5%豆，你失败-5%.
pub struct FanYaSkill;
impl Skill for FanYaSkill {
    open spec fn spec_id(&self) -> u32 {
        12
    }

    open spec fn spec_max_uses(&self) -> u8 {
        1
    }

    open spec fn spec_category(&self) -> SkillCategory {
        SkillCategory::Risk
    }

    open spec fn spec_name(&self) -> Seq<char> {
        "反压"@
    }

    open spec fn spec_description(&self) -> Seq<char> {
        "指定对手：对方失败-5%豆，你失败-5%"@
    }

    open spec fn spec_can_use(&self, game: GameState, player: PlayerId) -> bool {
        true
    }

    open spec fn spec_succeeds(&self, game: GameState, player: PlayerId, target: Option<PlayerId>) -> bool {
        target.is_some()
    }

    open spec fn spec_effect(&self, game: GameState, player: PlayerId, target: Option<PlayerId>, data: Option<EffectData>) -> bool {
        match target { Some(t) => data == Some(EffectData::TargetPenalty { target: t, penalty_bp: 500 }), None => data.is_none() }
    }

    fn id(&self) -> (r: u32) {
        12
    }

    fn name(&self) -> (r: &'static str) {
        "反压"
    }

    fn description(&self) -> (r: &'static str) {
        "指定对手：对方失败-5%豆，你失败-5%"
    }

    fn category(&self) -> (r: SkillCategory) {
        SkillCategory::Risk
    }

    fn max_uses(&self) -> (r: u8) {
        1
    }

    fn can_use(&self, _game_state: &GameState, _player_id: PlayerId) -> (r: bool) {
        true
    }

    fn use_skill(&mut self, _game_state: &mut GameState, _player_id: PlayerId, target: Option<PlayerId>) -> (r: SkillResult) {
        match target {
            Some(target_id) => {
                let text = String::from_str("已对玩家 ").concat(id_text(target_id.0).as_str()).concat(" 施加反压");
                SkillResult::success(text.as_str()).with_data(EffectData::TargetPenalty { target: target_id, penalty_bp: 500 })
            },
            None => SkillResult::failure("需要指定目标玩家"),
        }
    }
}
/// Any one of the twelve skills: the tag selects the skill and its behaviour.
pub enum SkillKind {
    TingShi(TingShiSkill),
    GuanLiu(GuanLiuSkill),
    SuanYu(SuanYuSkill),
    MingSuan(MingSuanSkill),
    WenShou(WenShouSkill),
    HuanChong(HuanChongSkill),
    ChongZheng(ChongZhengSkill),
    WenDou(WenDouSkill),
    JiaMa(JiaMaSkill),
    TiSu(TiSuSkill),
    GuZhu(GuZhuSkill),
    FanYa(FanYaSkill),
}

impl Skill for SkillKind {
    open spec fn spec_id(&self) -> u32 {
        match self {
            SkillKind::TingShi(s) => s.spec_id(),
            SkillKind::GuanLiu(s) => s.spec_id(),
            SkillKind::SuanYu(s) => s.spec_id(),
            SkillKind::MingSuan(s) => s.spec_id(),
            SkillKind::WenShou(s) => s.spec_id(),
            SkillKind::HuanChong(s) => s.spec_id(),
            SkillKind::ChongZheng(s) => s.spec_id(),
            SkillKind::WenDou(s) => s.spec_id(),
            SkillKind::JiaMa(s) => s.spec_id(),
            SkillKind::TiSu(s) => s.spec_id(),
            SkillKind::GuZhu(s) => s.spec_id(),
            SkillKind::FanYa(s) => s.spec_id(),
        }
    }

    open spec fn spec_max_uses(&self) -> u8 {
        match self {
            SkillKind::TingShi(s) => s.spec_max_uses(),
            SkillKind::GuanLiu(s) => s.spec_max_uses(),
            SkillKind::SuanYu(s) => s.spec_max_uses(),
            SkillKind::MingSuan(s) => s.spec_max_uses(),
            SkillKind::WenShou(s) => s.spec_max_uses(),
            SkillKind::HuanChong(s) => s.spec_max_uses(),
            SkillKind::ChongZheng(s) => s.spec_max_uses(),
            SkillKind::WenDou(s) => s.spec_max_uses(),
            SkillKind::JiaMa(s) => s.spec_max_uses(),
            SkillKind::TiSu(s) => s.spec_max_uses(),
            SkillKind::GuZhu(s) => s.spec_max_uses(),
            SkillKind::FanYa(s) => s.spec_max_uses(),
        }
    }

    open spec fn spec_category(&self) -> SkillCategory {
        match self {
            SkillKind::TingShi(s) => s.spec_category(),
            SkillKind::GuanLiu(s) => s.spec_category(),
            SkillKind::SuanYu(s) => s.spec_category(),
            SkillKind::MingSuan(s) => s.spec_category(),
            SkillKind::WenShou(s) => s.spec_category(),
            SkillKind::HuanChong(s) => s.spec_category(),
            SkillKind::ChongZheng(s) => s.spec_category(),
            SkillKind::WenDou(s) => s.spec_category(),
            SkillKind::JiaMa(s) => s.spec_category(),
            SkillKind::TiSu(s) => s.spec_category(),
            SkillKind::GuZhu(s) => s.spec_category(),
            SkillKind::FanYa(s) => s.spec_category(),
        }
    }

    open spec fn spec_name(&self) -> Seq<char> {
        match self {
            SkillKind::TingShi(s) => s.spec_name(),
            SkillKind::GuanLiu(s) => s.spec_name(),
            SkillKind::SuanYu(s) => s.spec_name(),
            SkillKind::MingSuan(s) => s.spec_name(),
            SkillKind::WenShou(s) => s.spec_name(),
            SkillKind::HuanChong(s) => s.spec_name(),
            SkillKind::ChongZheng(s) => s.spec_name(),
            SkillKind::WenDou(s) => s.spec_name(),
            SkillKind::JiaMa(s) => s.spec_name(),
            SkillKind::TiSu(s) => s.spec_name(),
            SkillKind::GuZhu(s) => s.spec_name(),
            SkillKind::FanYa(s) => s.spec_name(),
        }
    }

    open spec fn spec_description(&self) -> Seq<char> {
        match self {
            SkillKind::TingShi(s) => s.spec_description(),
            SkillKind::GuanLiu(s) => s.spec_description(),
            SkillKind::SuanYu(s) => s.spec_description(),
            SkillKind::MingSuan(s) => s.spec_description(),
            SkillKind::WenShou(s) => s.spec_description(),
            SkillKind::HuanChong(s) => s.spec_description(),
            SkillKind::ChongZheng(s) => s.spec_description(),
            SkillKind::WenDou(s) => s.spec_description(),
            SkillKind::JiaMa(s) => s.spec_description(),
            SkillKind::TiSu(s) => s.spec_description(),
            SkillKind::GuZhu(s) => s.spec_description(),
            SkillKind::FanYa(s) => s.spec_description(),
        }
    }

    open spec fn spec_can_use(&self, game: GameState, player: PlayerId) -> bool {
        match self {
            SkillKind::TingShi(s) => s.spec_can_use(game, player),
            SkillKind::GuanLiu(s) => s.spec_can_use(game, player),
            SkillKind::SuanYu(s) => s.spec_can_use(game, player),
            SkillKind::MingSuan(s) => s.spec_can_use(game, player),
            SkillKind::WenShou(s) => s.spec_can_use(game, player),
            SkillKind::HuanChong(s) => s.spec_can_use(game, player),
            SkillKind::ChongZheng(s) => s.spec_can_use(game, player),
            SkillKind::WenDou(s) => s.spec_can_use(game, player),
            SkillKind::JiaMa(s) => s.spec_can_use(game, player),
            SkillKind::TiSu(s) => s.spec_can_use(game, player),
            SkillKind::GuZhu(s) => s.spec_can_use(game, player),
            SkillKind::FanYa(s) => s.spec_can_use(game, player),
        }
    }

    open spec fn spec_succeeds(&self, game: GameState, player: PlayerId, target: Option<PlayerId>) -> bool {
        match self {
            SkillKind::TingShi(s) => s.spec_succeeds(game, player, target),
            SkillKind::GuanLiu(s) => s.spec_succeeds(game, player, target),
            SkillKind::SuanYu(s) => s.spec_succeeds(game, player, target),
            SkillKind::MingSuan(s) => s.spec_succeeds(game, player, target),
            SkillKind::WenShou(s) => s.spec_succeeds(game, player, target),
            SkillKind::HuanChong(s) => s.spec_succeeds(game, player, target),
            SkillKind::ChongZheng(s) => s.spec_succeeds(game, player, target),
            SkillKind::WenDou(s) => s.spec_succeeds(game, player, target),
            SkillKind::JiaMa(s) => s.spec_succeeds(game, player, target),
            SkillKind::TiSu(s) => s.spec_succeeds(game, player, target),
            SkillKind::GuZhu(s) => s.spec_succeeds(game, player, target),
            SkillKind::FanYa(s) => s.spec_succeeds(game, player, target),
        }
    }

    open spec fn spec_effect(&self, game: GameState, player: PlayerId, target: Option<PlayerId>, data: Option<EffectData>) -> bool {
        match self {
            SkillKind::TingShi(s) => s.spec_effect(game, player, target, data),
            SkillKind::GuanLiu(s) => s.spec_effect(game, player, target, data),
            SkillKind::SuanYu(s) => s.spec_effect(game, player, target, data),
            SkillKind::MingSuan(s) => s.spec_effect(game, player, target, data),
            SkillKind::WenShou(s) => s.spec_effect(game, player, target, data),
            SkillKind::HuanChong(s) => s.spec_effect(game, player, target, data),
            SkillKind::ChongZheng(s) => s.spec_effect(game, player, target, data),
            SkillKind::WenDou(s) => s.spec_effect(game, player, target, data),
            SkillKind::JiaMa(s) => s.spec_effect(game, player, target, data),
            SkillKind::TiSu(s) => s.spec_effect(game, player, target, data),
            SkillKind::GuZhu(s) => s.spec_effect(game, player, target, data),
            SkillKind::FanYa(s) => s.spec_effect(game, player, target, data),
        }
    }

    fn id(&self) -> (r: u32) {
        match self {
            SkillKind::TingShi(s) => s.id(),
            SkillKind::GuanLiu(s) => s.id(),
            SkillKind::SuanYu(s) => s.id(),
            SkillKind::MingSuan(s) => s.id(),
            SkillKind::WenShou(s) => s.id(),
            SkillKind::HuanChong(s) => s.id(),
            SkillKind::ChongZheng(s) => s.id(),
            SkillKind::WenDou(s) => s.id(),
            SkillKind::JiaMa(s) => s.id(),
            SkillKind::TiSu(s) => s.id(),
            SkillKind::GuZhu(s) => s.id(),
            SkillKind::FanYa(s) => s.id(),
        }
    }

    fn name(&self) -> (r: &'static str) {
        match self {
            SkillKind::TingShi(s) => s.name(),
            SkillKind::GuanLiu(s) => s.name(),
            SkillKind::SuanYu(s) => s.name(),
            SkillKind::MingSuan(s) => s.name(),
            SkillKind::WenShou(s) => s.name(),
            SkillKind::HuanChong(s) => s.name(),
            SkillKind::ChongZheng(s) => s.name(),
            SkillKind::WenDou(s) => s.name(),
            SkillKind::JiaMa(s) => s.name(),
            SkillKind::TiSu(s) => s.name(),
            SkillKind::GuZhu(s) => s.name(),
            SkillKind::FanYa(s) => s.name(),
        }
    }

    fn description(&self) -> (r: &'static str) {
        match self {
            SkillKind::TingShi(s) => s.description(),
            SkillKind::GuanLiu(s) => s.description(),
            SkillKind::SuanYu(s) => s.description(),
            SkillKind::MingSuan(s) => s.description(),
            SkillKind::WenShou(s) => s.description(),
            SkillKind::HuanChong(s) => s.description(),
            SkillKind::ChongZheng(s) => s.description(),
            SkillKind::WenDou(s) => s.description(),
            SkillKind::JiaMa(s) => s.description(),
            SkillKind::TiSu(s) => s.description(),
            SkillKind::GuZhu(s) => s.description(),
            SkillKind::FanYa(s) => s.description(),
        }
    }

    fn category(&self) -> (r: SkillCategory) {
        match self {
            SkillKind::TingShi(s) => s.category(),
            SkillKind::GuanLiu(s) => s.category(),
            SkillKind::SuanYu(s) => s.category(),
            SkillKind::MingSuan(s) => s.category(),
            SkillKind::WenShou(s) => s.category(),
            SkillKind::HuanChong(s) => s.category(),
            SkillKind::ChongZheng(s) => s.category(),
            SkillKind::WenDou(s) => s.category(),
            SkillKind::JiaMa(s) => s.category(),
            SkillKind::TiSu(s) => s.category(),
            SkillKind::GuZhu(s) => s.category(),
            SkillKind::FanYa(s) => s.category(),
        }
    }

    fn max_uses(&self) -> (r: u8) {
        match self {
            SkillKind::TingShi(s) => s.max_uses(),
            SkillKind::GuanLiu(s) => s.max_uses(),
            SkillKind::SuanYu(s) => s.max_uses(),
            SkillKind::MingSuan(s) => s.max_uses(),
            SkillKind::WenShou(s) => s.max_uses(),
            SkillKind::HuanChong(s) => s.max_uses(),
            SkillKind::ChongZheng(s) => s.max_uses(),
            SkillKind::WenDou(s) => s.max_uses(),
            SkillKind::JiaMa(s) => s.max_uses(),
            SkillKind::TiSu(s) => s.max_uses(),
            SkillKind::GuZhu(s) => s.max_uses(),
            SkillKind::FanYa(s) => s.max_uses(),
        }
    }

    fn can_use(&self, game_state: &GameState, player_id: PlayerId) -> (r: bool) {
        match self {
            SkillKind::TingShi(s) => s.can_use(game_state, player_id),
            SkillKind::GuanLiu(s) => s.can_use(game_state, player_id),
            SkillKind::SuanYu(s) => s.can_use(game_state, player_id),
            SkillKind::MingSuan(s) => s.can_use(game_state, player_id),
            SkillKind::WenShou(s) => s.can_use(game_state, player_id),
            SkillKind::HuanChong(s) => s.can_use(game_state, player_id),
            SkillKind::ChongZheng(s) => s.can_use(game_state, player_id),
            SkillKind::WenDou(s) => s.can_use(game_state, player_id),
            SkillKind::JiaMa(s) => s.can_use(game_state, player_id),
            SkillKind::TiSu(s) => s.can_use(game_state, player_id),
            SkillKind::GuZhu(s) => s.can_use(game_state, player_id),
            SkillKind::FanYa(s) => s.can_use(game_state, player_id),
        }
    }

    fn use_skill(&mut self, game_state: &mut GameState, player_id: PlayerId, target: Option<PlayerId>) -> (r: SkillResult) {
        match self {
            SkillKind::TingShi(s) => s.use_skill(game_state, player_id, target),
            SkillKind::GuanLiu(s) => s.use_skill(game_state, player_id, target),
            SkillKind::SuanYu(s) => s.use_skill(game_state, player_id, target),
            SkillKind::MingSuan(s) => s.use_skill(game_state, player_id, target),
            SkillKind::WenShou(s) => s.use_skill(game_state, player_id, target),
            SkillKind::HuanChong(s) => s.use_skill(game_state, player_id, target),
            SkillKind::ChongZheng(s) => s.use_skill(game_state, player_id, target),
            SkillKind::WenDou(s) => s.use_skill(game_state, player_id, target),
            SkillKind::JiaMa(s) => s.use_skill(game_state, player_id, target),
            SkillKind::TiSu(s) => s.use_skill(game_state, player_id, target),
            SkillKind::GuZhu(s) => s.use_skill(game_state, player_id, target),
            SkillKind::FanYa(s) => s.use_skill(game_state, player_id, target),
        }
    }
}

/// The skill with identifier `id` (1..=12), fresh.
pub open spec fn skill_with_id(k: SkillKind, id: u32) -> bool {
    k.spec_id() == id && k.spec_max_uses() >= 1
}

/// One fresh instance of each of the twelve skills, in identifier order.
pub fn create_all_skills() -> (r: Vec<SkillKind>)
    ensures
        r@.len() == 12,
        forall|i: int| 0 <= i < 12 ==> (#[trigger] r@[i]).spec_id() == i + 1,
{
    let mut v: Vec<SkillKind> = Vec::new();
    v.push(SkillKind::TingShi(TingShiSkill));
    v.push(SkillKind::GuanLiu(GuanLiuSkill));
    v.push(SkillKind::SuanYu(SuanYuSkill));
    v.push(SkillKind::MingSuan(MingSuanSkill));
    v.push(SkillKind::WenShou(WenShouSkill::new()));
    v.push(SkillKind::HuanChong(HuanChongSkill));
    v.push(SkillKind::ChongZheng(ChongZhengSkill));
    v.push(SkillKind::WenDou(WenDouSkill));
    v.push(SkillKind::JiaMa(JiaMaSkill));
    v.push(SkillKind::TiSu(TiSuSkill));
    v.push(SkillKind::GuZhu(GuZhuSkill::new()));
    v.push(SkillKind::FanYa(FanYaSkill));
    v
}

/// A fresh instance of the skill with identifier `id`, or `None` outside 1..=12.
pub fn get_skill_by_id(id: u32) -> (r: Option<SkillKind>)
    ensures
        (1 <= id <= 12) <==> r.is_some(),
        r.is_some() ==> r.unwrap().spec_id() == id,
{
    match id {
        1 => Some(SkillKind::TingShi(TingShiSkill)),
        2 => Some(SkillKind::GuanLiu(GuanLiuSkill)),
        3 => Some(SkillKind::SuanYu(SuanYuSkill)),
        4 => Some(SkillKind::MingSuan(MingSuanSkill)),
        5 => Some(SkillKind::WenShou(WenShouSkill::new())),
        6 => Some(SkillKind::HuanChong(HuanChongSkill)),
        7 => Some(SkillKind::ChongZheng(ChongZhengSkill)),
        8 => Some(SkillKind::WenDou(WenDouSkill)),
        9 => Some(SkillKind::JiaMa(JiaMaSkill)),
        10 => Some(SkillKind::TiSu(TiSuSkill)),
        11 => Some(SkillKind::GuZhu(GuZhuSkill::new())),
        12 => Some(SkillKind::FanYa(FanYaSkill)),
        _ => None,
    }
}

} // verus!
