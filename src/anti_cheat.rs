use vstd::prelude::*;
use vstd::string::*;
use std::collections::HashMap;
use crate::game::{GameState, GameAction};
use crate::player::PlayerId;
use crate::economy::currency::now_millis;

verus! {

broadcast use vstd::std_specs::hash::group_hash_axioms;

/// Actions kept per player.
pub const HISTORY_LIMIT: usize = 100;

/// History length from which the timing heuristic reports.
pub const FAST_ACTION_HISTORY: usize = 20;

/// Kinds of suspicious pattern.
#[derive(Debug, Clone, Copy, PartialEq, Eq, Structural)]
pub enum PatternType {
    ImpossibleWinRate,
    TooFastActions,
    PredictableBehavior,
    MultipleAccounts,
}

/// A detected pattern; confidence in percent, time in milliseconds since the epoch.
#[derive(Debug, Clone, Copy, PartialEq, Eq, Structural)]
pub struct SuspiciousPattern {
    pub player_id: PlayerId,
    pub pattern_type: PatternType,
    pub confidence_pct: u8,
    pub timestamp: i64,
}

/// Verdict on an action.
#[derive(Debug, Clone)]
pub enum ValidationResult {
    Valid,
    Invalid(String),
    Suspicious(String),
}

/// Per-action legality checks and a pluggable pattern detector.
pub struct AntiCheatSystem {
    action_history: HashMap<u128, Vec<GameAction>>,
    suspicious_patterns: Vec<SuspiciousPattern>,
}

/// `s` without its adjacent repeats.
pub open spec fn dedup_adjacent(s: Seq<PlayerId>) -> Seq<PlayerId>
    decreases s.len(),
{
    if s.len() == 0 {
        s
    } else if s.len() >= 2 && s[s.len() - 2] == s.last() {
        dedup_adjacent(s.drop_last())
    } else {
        dedup_adjacent(s.drop_last()).push(s.last())
    }
}

impl AntiCheatSystem {
    pub closed spec fn history_len(&self, id: u128) -> nat {
        if self.action_history@.contains_key(id) { self.action_history@[id]@.len() } else { 0 }
    }

    pub closed spec fn patterns(&self) -> Seq<SuspiciousPattern> {
        self.suspicious_patterns@
    }

    pub fn new() -> (r: AntiCheatSystem)
        ensures
            forall|id: u128| r.history_len(id) == 0,
            r.patterns().len() == 0,
    {
        AntiCheatSystem { action_history: HashMap::new(), suspicious_patterns: Vec::new() }
    }

    /// Appends an action to the player's history, dropping the oldest once more than a
    /// hundred are kept.
    pub fn record_action(&mut self, player_id: PlayerId, action: GameAction)
        ensures
            final(self).history_len(player_id.0) == if old(self).history_len(player_id.0) >= HISTORY_LIMIT {
                old(self).history_len(player_id.0) } else { old(self).history_len(player_id.0) + 1 },
            forall|o: u128| o != player_id.0 ==> final(self).history_len(o) == old(self).history_len(o),
            final(self).patterns() == old(self).patterns(),
    {
        let mut history = match self.action_history.remove(&player_id.0) {
            Some(h) => h,
            None => Vec::new(),
        };
        history.push(action);
        if history.len() > HISTORY_LIMIT {
            history.remove(0);
        }
        self.action_history.insert(player_id.0, history);
    }

    /// Refuses an action from anyone but the player on turn, and a discard of a card
    /// position the hand does not have.
    pub fn validate_action(&self, game_state: &GameState, player_id: PlayerId, action: &GameAction) -> (r: ValidationResult)
        requires
            game_state.wf(),
        ensures
            (r is Valid) <==> (!(game_state.current_player_idx < game_state.players@.len()
                && game_state.players@[game_state.current_player_idx as int].id != player_id)
                && !(*action matches GameAction::PlayCard { player, card_idx } && game_state.has_hand(player)
                && card_idx >= game_state.hands@[game_state.seat(player)].card_seq().len())),
            !(r is Suspicious),
    {
        match game_state.get_current_player_id() {
            Some(current) => {
                if current != player_id {
                    return ValidationResult::Invalid(String::from_str("不是当前玩家的回合"));
                }
            },
            None => {},
        }
        match action {
            GameAction::PlayCard { player, card_idx } => {
                match game_state.seat_of(*player) {
                    Some(s) => {
                        proof { game_state.lemma_seat_is(*player, s as int); }
                        if s < game_state.hands.len() && *card_idx >= game_state.hands[s].len() {
                            return ValidationResult::Invalid(String::from_str("无效的牌索引"));
                        }
                    },
                    None => {},
                }
            },
            _ => {},
        }
        ValidationResult::Valid
    }

    /// Runs the pattern detector for `player_id`. The timing heuristic is deliberately simple:
    /// it reports too-fast actions, with 70% confidence, once twenty actions are recorded.
    pub fn check_patterns(&mut self, player_id: PlayerId, _game_state: &GameState) -> (r: Vec<SuspiciousPattern>)
        ensures
            old(self).history_len(player_id.0) >= FAST_ACTION_HISTORY ==> r@.len() == 1
                && r@[0].player_id == player_id && r@[0].pattern_type == PatternType::TooFastActions
                && r@[0].confidence_pct == 70,
            old(self).history_len(player_id.0) < FAST_ACTION_HISTORY ==> r@.len() == 0,
            final(self).patterns() == old(self).patterns() + r@,
            forall|o: u128| final(self).history_len(o) == old(self).history_len(o),
    {
        let mut detected: Vec<SuspiciousPattern> = Vec::new();
        let n = match self.action_history.get(&player_id.0) {
            Some(h) => h.len(),
            None => 0,
        };
        if n >= FAST_ACTION_HISTORY {
            let p = SuspiciousPattern {
                player_id,
                pattern_type: PatternType::TooFastActions,
                confidence_pct: 70,
                timestamp: now_millis(),
            };
            detected.push(p);
            self.suspicious_patterns.push(p);
            proof {
                assert(self.suspicious_patterns@ =~= old(self).suspicious_patterns@ + detected@);
            }
        } else {
            proof {
                assert(self.suspicious_patterns@ =~= old(self).suspicious_patterns@ + detected@);
            }
        }
        detected
    }

    /// Players with a recorded pattern, in order of detection, adjacent repeats merged.
    pub fn get_suspicious_players(&self) -> (r: Vec<PlayerId>)
        ensures
            r@ == dedup_adjacent(self.patterns().map_values(|p: SuspiciousPattern| p.player_id)),
    {
        let ghost ids = self.suspicious_patterns@.map_values(|p: SuspiciousPattern| p.player_id);
        let mut out: Vec<PlayerId> = Vec::new();
        let mut i: usize = 0;
        while i < self.suspicious_patterns.len()
            invariant
                i <= self.suspicious_patterns@.len(),
                ids == self.suspicious_patterns@.map_values(|p: SuspiciousPattern| p.player_id),
                out@ == dedup_adjacent(ids.subrange(0, i as int)),
                i > 0 ==> out@.len() > 0 && out@.last() == ids[i - 1],
            decreases self.suspicious_patterns@.len() - i,
        {
            let id = self.suspicious_patterns[i].player_id;
            let ghost pre = ids.subrange(0, i as int);
            proof {
                assert(ids.subrange(0, i + 1).drop_last() == pre);
                assert(ids.subrange(0, i + 1).last() == id);
                if i > 0 {
                    assert(ids.subrange(0, i + 1)[i - 1] == ids[i - 1]);
                }
            }
            if i > 0 && out[out.len() - 1] == id {
            } else {
                out.push(id);
            }
            i = i + 1;
        }
        proof { assert(ids.subrange(0, ids.len() as int) == ids); }
        out
    }
}

} // verus!
