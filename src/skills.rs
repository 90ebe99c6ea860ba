//! Player skills: twelve typed abilities with per-hand budgets.

pub mod effect;
pub mod catalog;
pub mod trigger;

use vstd::prelude::*;
use vstd::string::*;
use std::collections::HashMap;
use crate::game::GameState;
use crate::player::PlayerId;

use crate::skills::catalog::SkillKind;
use crate::skills::effect::EffectData;

verus! {

broadcast use vstd::std_specs::hash::group_hash_axioms;

/// Skill groups.
#[derive(Debug, Clone, Copy, PartialEq, Eq, Structural)]
pub enum SkillCategory {
    Information,
    ErrorCorrection,
    Economy,
    Risk,
}

impl SkillCategory {
    /// The category's display name.
    pub fn to_string(&self) -> (r: String)
        ensures
            r@ == match self {
                SkillCategory::Information => "信息类"@,
                SkillCategory::ErrorCorrection => "容错类"@,
                SkillCategory::Economy => "收益类"@,
                SkillCategory::Risk => "风险类"@,
            },
    {
        match self {
            SkillCategory::Information => String::from_str("信息类"),
            SkillCategory::ErrorCorrection => String::from_str("容错类"),
            SkillCategory::Economy => String::from_str("收益类"),
            SkillCategory::Risk => String::from_str("风险类"),
        }
    }
}

/// Outcome of using a skill: success, a message, and typed effect data.
#[derive(Debug, Clone)]
pub struct SkillResult {
    pub success: bool,
    pub message: String,
    pub effect_data: Option<EffectData>,
}

impl SkillResult {
    pub fn success(message: &str) -> (r: SkillResult)
        ensures
            r.success,
            r.message@ == message@,
            r.effect_data.is_none(),
    {
        SkillResult { success: true, message: String::from_str(message), effect_data: None }
    }

    pub fn failure(message: &str) -> (r: SkillResult)
        ensures
            !r.success,
            r.message@ == message@,
            r.effect_data.is_none(),
    {
        SkillResult { success: false, message: String::from_str(message), effect_data: None }
    }

    pub fn with_data(self, data: EffectData) -> (r: SkillResult)
        ensures
            r.success == self.success,
            r.message@ == self.message@,
            r.effect_data == Some(data),
    {
        SkillResult { success: self.success, message: self.message, effect_data: Some(data) }
    }
}

/// What every skill's use keeps of the game: seats, deck, discards, phase, and the
/// cards of each hand (their order may change).
pub open spec fn game_kept(before: GameState, after: GameState) -> bool {
    &&& after.wf()
    &&& after.players@ == before.players@
    &&& after.deck == before.deck
    &&& after.discard_pile@ == before.discard_pile@
    &&& after.phase == before.phase
    &&& after.current_player_idx == before.current_player_idx
    &&& after.hands@.len() == before.hands@.len()
    &&& forall|i: int| 0 <= i < before.hands@.len() ==> (#[trigger] after.hands@[i]).card_seq().to_multiset()
        == before.hands@[i].card_seq().to_multiset() && after.hands@[i].meld_seq() == before.hands@[i].meld_seq()
}

/// The uniform contract of a skill.
pub trait Skill: Sized {
    spec fn spec_id(&self) -> u32;

    spec fn spec_max_uses(&self) -> u8;

    spec fn spec_category(&self) -> SkillCategory;

    spec fn spec_name(&self) -> Seq<char>;

    spec fn spec_description(&self) -> Seq<char>;

    /// When the skill may be used.
    spec fn spec_can_use(&self, game: GameState, player: PlayerId) -> bool;

    /// When a use succeeds.
    spec fn spec_succeeds(&self, game: GameState, player: PlayerId, target: Option<PlayerId>) -> bool;

    /// The effect data a use returns.
    spec fn spec_effect(&self, game: GameState, player: PlayerId, target: Option<PlayerId>, data: Option<EffectData>) -> bool;

    fn id(&self) -> (r: u32)
        ensures
            r == self.spec_id();

    fn name(&self) -> (r: &'static str)
        ensures
            r@ == self.spec_name();

    fn description(&self) -> (r: &'static str)
        ensures
            r@ == self.spec_description();

    fn category(&self) -> (r: SkillCategory)
        ensures
            r == self.spec_category();

    fn max_uses(&self) -> (r: u8)
        ensures
            r == self.spec_max_uses(),
            r >= 1;

    fn can_use(&self, game_state: &GameState, player_id: PlayerId) -> (r: bool)
        requires
            game_state.wf(),
        ensures
            r == self.spec_can_use(*game_state, player_id);

    fn use_skill(&mut self, game_state: &mut GameState, player_id: PlayerId, target: Option<PlayerId>) -> (r: SkillResult)
        requires
            old(game_state).wf(),
        ensures
            game_kept(*old(game_state), *final(game_state)),
            r.success == old(self).spec_succeeds(*old(game_state), player_id, target),
            old(self).spec_effect(*old(game_state), player_id, target, r.effect_data),
            final(self).spec_id() == old(self).spec_id(),
            final(self).spec_max_uses() == old(self).spec_max_uses();
}

/// A skill bound to a player for one hand, with its remaining budget.
pub struct SkillInstance {
    pub skill: SkillKind,
    pub remaining_uses: u8,
}

impl SkillInstance {
    /// The skill with its full budget.
    pub fn new(skill: SkillKind) -> (r: SkillInstance)
        ensures
            r.skill == skill,
            r.remaining_uses == skill.spec_max_uses(),
    {
        let uses = skill.max_uses();
        SkillInstance { skill, remaining_uses: uses }
    }

    /// Uses the skill if budget remains and it may be used now; a success spends one use.
    pub fn try_use(&mut self, game_state: &mut GameState, player_id: PlayerId, target: Option<PlayerId>) -> (r: SkillResult)
        requires
            old(game_state).wf(),
        ensures
            game_state_unchanged_or_kept(*old(game_state), *final(game_state)),
            final(self).skill.spec_id() == old(self).skill.spec_id(),
            old(self).remaining_uses == 0 ==> !r.success,
            !old(self).skill.spec_can_use(*old(game_state), player_id) ==> !r.success,
            r.success == (old(self).remaining_uses > 0 && old(self).skill.spec_can_use(*old(game_state), player_id)
                && old(self).skill.spec_succeeds(*old(game_state), player_id, target)),
            r.success ==> final(self).remaining_uses == old(self).remaining_uses - 1,
            !r.success ==> final(self).remaining_uses == old(self).remaining_uses,
            r.success ==> old(self).skill.spec_effect(*old(game_state), player_id, target, r.effect_data),
            (old(self).remaining_uses == 0 || !old(self).skill.spec_can_use(*old(game_state), player_id))
                ==> *final(game_state) == *old(game_state) && *final(self) == *old(self),
    {
        if self.remaining_uses == 0 {
            return SkillResult::failure("技能使用次数已耗尽");
        }
        if !self.skill.can_use(game_state, player_id) {
            return SkillResult::failure("当前无法使用该技能");
        }
        let result = self.skill.use_skill(game_state, player_id, target);
        if result.success {
            self.remaining_uses = self.remaining_uses - 1;
        }
        result
    }
}

/// A use leaves the game as it was, or changes it only as a skill may.
pub open spec fn game_state_unchanged_or_kept(before: GameState, after: GameState) -> bool {
    after == before || game_kept(before, after)
}

/// Number of successes in a sequence of use results.
pub open spec fn successes(results: Seq<bool>) -> nat
    decreases results.len(),
{
    if results.len() == 0 {
        0
    } else {
        successes(results.drop_last()) + if results.last() { 1nat } else { 0nat }
    }
}

/// A skill's budget bounds its successes: if each use succeeds only with budget left
/// and a success spends one use (as `try_use` ensures), then over any run of uses
/// starting from `max_uses`, the successes plus what remains equal `max_uses`, so at
/// most `max_uses` uses succeed.
pub proof fn lemma_budget_bounds_successes(max_uses: nat, results: Seq<bool>, remaining: Seq<nat>)
    requires
        remaining.len() == results.len() + 1,
        remaining[0] == max_uses,
        forall|i: int| 0 <= i < results.len() ==> (#[trigger] results[i] ==> remaining[i] > 0 && remaining[i + 1] == remaining[i] - 1),
        forall|i: int| 0 <= i < results.len() ==> (!#[trigger] results[i] ==> remaining[i + 1] == remaining[i]),
    ensures
        successes(results) + remaining.last() == max_uses,
        successes(results) <= max_uses,
    decreases results.len(),
{
    if results.len() > 0 {
        let n = results.len() - 1;
        assert forall|i: int| 0 <= i < results.drop_last().len() implies (#[trigger] results.drop_last()[i] ==> remaining.drop_last()[i] > 0 && remaining.drop_last()[i + 1] == remaining.drop_last()[i] - 1) by {
            assert(results.drop_last()[i] == results[i]);
        }
        assert forall|i: int| 0 <= i < results.drop_last().len() implies (!#[trigger] results.drop_last()[i] ==> remaining.drop_last()[i + 1] == remaining.drop_last()[i]) by {
            assert(results.drop_last()[i] == results[i]);
        }
        lemma_budget_bounds_successes(max_uses, results.drop_last(), remaining.drop_last());
        assert(results.last() == results[n]);
        if results[n] {
            assert(remaining[n] > 0);
        }
    }
}

/// `k` is the first position in `list` holding the skill `id`.
pub open spec fn first_skill_at(list: Seq<SkillInstance>, id: u32, k: int) -> bool {
    &&& 0 <= k < list.len()
    &&& list[k].skill.spec_id() == id
    &&& forall|j: int| 0 <= j < k ==> (#[trigger] list[j]).skill.spec_id() != id
}

/// Skills of each player for the current hand, keyed by the identifier's value.
pub struct SkillManager {
    player_skills: HashMap<u128, Vec<SkillInstance>>,
}

impl SkillManager {
    pub closed spec fn skills_map(&self) -> Map<u128, Seq<SkillInstance>> {
        self.player_skills@.map_values(|v: Vec<SkillInstance>| v@)
    }

    pub fn new() -> (r: SkillManager)
        ensures
            r.skills_map().dom().len() == 0,
    {
        let r = SkillManager { player_skills: HashMap::new() };
        proof {
            assert(r.skills_map().dom() =~= Set::empty());
        }
        r
    }

    /// Gives `player_id` the listed skills, each with its full budget.
    pub fn assign_skills(&mut self, player_id: PlayerId, skills: Vec<SkillKind>)
        ensures
            final(self).skills_map().contains_key(player_id.0),
            final(self).skills_map()[player_id.0].len() == skills@.len(),
            forall|i: int| 0 <= i < skills@.len() ==> {
                &&& (#[trigger] final(self).skills_map()[player_id.0][i]).skill == skills@[i]
                &&& final(self).skills_map()[player_id.0][i].remaining_uses == skills@[i].spec_max_uses()
            },
    {
        let mut instances: Vec<SkillInstance> = Vec::new();
        let mut rest = skills;
        let ghost all = rest@;
        let mut i: usize = 0;
        let n = rest.len();
        while i < n
            invariant
                n == all.len(),
                i <= n,
                rest@ == all.subrange(i as int, n as int),
                instances@.len() == i,
                forall|j: int| 0 <= j < i ==> {
                    &&& (#[trigger] instances@[j]).skill == all[j]
                    &&& instances@[j].remaining_uses == all[j].spec_max_uses()
                },
            decreases n - i,
        {
            let s = rest.remove(0);
            proof { assert(s == all[i as int]); }
            instances.push(SkillInstance::new(s));
            i = i + 1;
        }
        self.player_skills.insert(player_id.0, instances);
    }

    pub fn get_player_skills(&self, player_id: PlayerId) -> (r: Option<&Vec<SkillInstance>>)
        ensures
            match r {
                Some(v) => self.skills_map().contains_key(player_id.0) && v@ == self.skills_map()[player_id.0],
                None => !self.skills_map().contains_key(player_id.0),
            },
    {
        self.player_skills.get(&player_id.0)
    }

    /// Uses the player's skill at `skill_idx`; `None` when the player has no skills or
    /// no skill at that position.
    pub fn use_skill(&mut self, player_id: PlayerId, skill_idx: usize, game_state: &mut GameState, target: Option<PlayerId>) -> (r: Option<SkillResult>)
        requires
            old(game_state).wf(),
        ensures
            final(game_state).wf(),
            (old(self).skills_map().contains_key(player_id.0) && skill_idx < old(self).skills_map()[player_id.0].len()) <==> r.is_some(),
            r.is_none() ==> final(self).skills_map() == old(self).skills_map() && *final(game_state) == *old(game_state),
            r.is_some() ==> ({
                let before = old(self).skills_map()[player_id.0][skill_idx as int];
                let after = final(self).skills_map()[player_id.0][skill_idx as int];
                &&& final(self).skills_map().dom() == old(self).skills_map().dom()
                &&& final(self).skills_map()[player_id.0].len() == old(self).skills_map()[player_id.0].len()
                &&& r.unwrap().success == (before.remaining_uses > 0 && before.skill.spec_can_use(*old(game_state), player_id)
                    && before.skill.spec_succeeds(*old(game_state), player_id, target))
                &&& after.remaining_uses == if r.unwrap().success { before.remaining_uses - 1 } else { before.remaining_uses as int }
                &&& r.unwrap().success ==> before.skill.spec_effect(*old(game_state), player_id, target, r.unwrap().effect_data)
            }),
    {
        let len = match self.player_skills.get(&player_id.0) {
            Some(v) => v.len(),
            None => { return None; },
        };
        if skill_idx >= len {
            return None;
        }
        let ghost m0 = self.player_skills@;
        let mut v = match self.player_skills.remove(&player_id.0) {
            Some(v) => v,
            None => { return None; },
        };
        let result = v[skill_idx].try_use(game_state, player_id, target);
        self.player_skills.insert(player_id.0, v);
        proof {
            assert(self.player_skills@.dom() =~= m0.dom());
            assert(self.skills_map().dom() =~= old(self).skills_map().dom());
        }
        Some(result)
    }
}

} // verus!
