use vstd::prelude::*;
use crate::card::Card;
use rand::Rng;
use crate::constants::MIN_HUXI_TO_WIN;
use crate::game::GameState;
use crate::hand::total_huxi;
use crate::player::PlayerId;

verus! {

/// Relies on rand's `Rng::gen_range` over `0..1000` with the thread-local generator,
/// which returns a value in that range.
#[verifier::external_body]
fn draw_permille() -> (r: u32)
    ensures
        r < 1000,
{
    rand::thread_rng().gen_range(0..1000u32)
}

/// When a skill fires.
#[derive(Debug, Clone, Copy, PartialEq, Eq, Structural)]
pub enum SkillTrigger {
    OnTurnStart,
    OnTurnEnd,
    OnCardPlayed,
    OnMeldFormed,
    OnDrawCard,
    OnOpponentDiscard,
    OnHu,
    OnGameEnd,
    Manual,
}

/// Condition under which a triggered skill fires. `Random` holds a probability in
/// thousandths.
#[derive(Debug, Clone)]
pub enum TriggerCondition {
    Always,
    HasCards(Vec<Card>),
    HandSize(usize),
    HuxiAbove(u8),
    InTing,
    LastRounds(u8),
    OpponentHasMeld,
    Random(u32),
}

impl TriggerCondition {
    /// Whether the condition holds for `player` in `game` when the chance draw is `draw`
    /// (thousandths, in 0..1000): `Random(p)` holds when `draw < p`. Conditions without an
    /// evaluation rule (held cards, opponents' melds) do not hold.
    pub open spec fn holds_with(&self, game: GameState, player: PlayerId, draw: u32) -> bool {
        match self {
            TriggerCondition::Random(p) => draw < *p,
            _ => self.holds(game, player),
        }
    }

    /// Whether a condition that involves no chance holds for `player` in `game`.
    pub open spec fn holds(&self, game: GameState, player: PlayerId) -> bool {
        match self {
            TriggerCondition::Always => true,
            TriggerCondition::HandSize(n) => game.has_hand(player) && game.hands@[game.seat(player)].card_seq().len() == *n,
            TriggerCondition::HuxiAbove(t) => game.has_hand(player) && total_huxi(game.hands@[game.seat(player)].meld_seq()) >= *t,
            TriggerCondition::InTing => game.has_hand(player) && total_huxi(game.hands@[game.seat(player)].meld_seq()) >= MIN_HUXI_TO_WIN,
            TriggerCondition::LastRounds(n) => game.deck.view_cards().len() <= *n,
            _ => false,
        }
    }

    /// Whether the condition holds, drawing a fresh chance value for `Random`.
    pub fn check(&self, game_state: &GameState, player_id: PlayerId) -> (r: bool)
        requires
            game_state.wf(),
        ensures
            !(*self is Random) ==> r == self.holds(*game_state, player_id),
            *self matches TriggerCondition::Random(p) ==> (p == 0 ==> !r) && (p >= 1000 ==> r),
    {
        let draw = draw_permille();
        self.check_with_draw(game_state, player_id, draw)
    }

    /// Whether the condition holds with the chance value `draw` (thousandths).
    pub fn check_with_draw(&self, game_state: &GameState, player_id: PlayerId, draw: u32) -> (r: bool)
        requires
            game_state.wf(),
        ensures
            r == self.holds_with(*game_state, player_id, draw),
    {
        match self {
            TriggerCondition::Always => true,
            TriggerCondition::HandSize(size) => {
                match game_state.seat_of(player_id) {
                    Some(s) => {
                        proof { game_state.lemma_seat_is(player_id, s as int); }
                        s < game_state.hands.len() && game_state.hands[s].len() == *size
                    },
                    None => false,
                }
            },
            TriggerCondition::HuxiAbove(threshold) => {
                match game_state.calculate_hand_huxi(player_id) {
                    Ok(huxi) => huxi >= *threshold,
                    Err(_) => false,
                }
            },
            TriggerCondition::InTing => {
                match game_state.can_hu(player_id) {
                    Ok(b) => b,
                    Err(_) => false,
                }
            },
            TriggerCondition::LastRounds(n) => game_state.deck.remaining() <= *n as usize,
            TriggerCondition::Random(p) => draw < *p,
            _ => false,
        }
    }
}

/// A trigger point with its condition.
pub struct TriggerContext {
    pub trigger: SkillTrigger,
    pub condition: TriggerCondition,
}

impl TriggerContext {
    pub fn new(trigger: SkillTrigger, condition: TriggerCondition) -> (r: TriggerContext)
        ensures
            r.trigger == trigger,
            r.condition == condition,
    {
        TriggerContext { trigger, condition }
    }

    pub fn should_trigger(&self, game_state: &GameState, player_id: PlayerId) -> (r: bool)
        requires
            game_state.wf(),
        ensures
            !(self.condition is Random) ==> r == self.condition.holds(*game_state, player_id),
    {
        self.condition.check(game_state, player_id)
    }
}

} // verus!
