use vstd::prelude::*;
use vstd::string::*;
use crate::card::Card;
use crate::error::GameError;
use crate::game::{GameState, GamePhase, is_seat};
use crate::message::{ClientMessage, ServerMessage};
use crate::player::{Player, PlayerId, PlayerState};
use crate::skills::{Skill, SkillManager, first_skill_at};
use crate::skills::catalog::create_all_skills;
use crate::text::{decimal, decimal_text};
use crate::meld::{Meld, same_meld};
use crate::view::GameView;
use crate::claims::{resolve_claims, Claim, ClaimKind};

verus! {

broadcast use vstd::seq_lib::group_filter_ensures;

/// Life of a room.
#[derive(Debug, Clone, Copy, PartialEq, Eq, Structural)]
pub enum RoomState {
    Waiting,
    Playing,
    Finished,
}

/// One room: its seats, who is ready, and the hand in play.
pub struct GameRoom {
    pub room_id: String,
    pub state: RoomState,
    pub max_players: usize,
    pub players: Vec<Player>,
    pub ready_players: Vec<PlayerId>,
    pub game_state: Option<GameState>,
    pub skill_manager: Option<SkillManager>,
}

/// A copy of a player.
pub fn copy_player(p: &Player) -> (r: Player)
    ensures
        r == *p,
{
    Player { id: p.id, name: p.name.clone(), state: p.state, is_dealer: p.is_dealer, position: p.position }
}

/// Identifiers in `s` are distinct.
pub open spec fn distinct_ids(s: Seq<Player>) -> bool {
    forall|i: int, j: int| 0 <= i < s.len() && 0 <= j < s.len() && i != j ==> #[trigger] s[i].id != #[trigger] s[j].id
}

/// Default seat name for the `n`-th player: 玩家n.
pub open spec fn seat_name(n: nat) -> Seq<char> {
    "玩家"@ + decimal(n)
}

impl GameRoom {
    /// Seats hold distinct players, and a hand in play keeps the game's invariant.
    pub open spec fn wf(&self) -> bool {
        &&& distinct_ids(self.players@)
        &&& (self.game_state matches Some(g) ==> g.wf())
    }

    /// `id` is seated in the room.
    pub open spec fn seated(&self, id: PlayerId) -> bool {
        exists|i: int| is_seat(self.players@, id, i)
    }

    pub fn new(room_id: String, max_players: usize) -> (r: GameRoom)
        ensures
            r.wf(),
            r.room_id@ == room_id@,
            r.state == RoomState::Waiting,
            r.max_players == max_players,
            r.players@.len() == 0,
            r.ready_players@.len() == 0,
            r.game_state.is_none(),
            r.skill_manager.is_none(),
    {
        GameRoom {
            room_id,
            state: RoomState::Waiting,
            max_players,
            players: Vec::new(),
            ready_players: Vec::new(),
            game_state: None,
            skill_manager: None,
        }
    }

    fn find_player(&self, id: PlayerId) -> (r: Option<usize>)
        ensures
            match r {
                Some(i) => is_seat(self.players@, id, i as int),
                None => !self.seated(id),
            },
    {
        let mut i: usize = 0;
        while i < self.players.len()
            invariant
                i <= self.players@.len(),
                forall|k: int| 0 <= k < i ==> !is_seat(self.players@, id, k),
            decreases self.players@.len() - i,
        {
            if self.players[i].id == id {
                return Some(i);
            }
            i = i + 1;
        }
        None
    }

    /// Seats `player_id` as an idle player named after its seat number, unless the room
    /// is full or the player is already seated.
    pub fn add_player(&mut self, player_id: PlayerId) -> (r: bool)
        requires
            old(self).wf(),
        ensures
            final(self).wf(),
            r == (old(self).players@.len() < old(self).max_players && !old(self).seated(player_id)),
            r ==> final(self).players@.len() == old(self).players@.len() + 1
                && final(self).players@.drop_last() == old(self).players@
                && final(self).players@.last().id == player_id
                && final(self).players@.last().state == PlayerState::Idle
                && final(self).players@.last().name@ == seat_name((old(self).players@.len() + 1) as nat),
            !r ==> final(self).players@ == old(self).players@,
            final(self).ready_players@ == old(self).ready_players@,
            final(self).game_state == old(self).game_state,
            final(self).state == old(self).state,
    {
        if self.players.len() >= self.max_players {
            return false;
        }
        if self.find_player(player_id).is_some() {
            return false;
        }
        let n = self.players.len() + 1;
        let name = String::from_str("玩家").concat(decimal_text(n as u64).as_str());
        let ghost p0 = self.players@;
        self.players.push(Player::with_id(player_id, name.as_str()));
        proof {
            assert(self.players@.drop_last() == p0);
            assert forall|i: int, j: int| 0 <= i < self.players@.len() && 0 <= j < self.players@.len() && i != j
                implies #[trigger] self.players@[i].id != #[trigger] self.players@[j].id by {
                if i == p0.len() {
                    assert(!is_seat(p0, player_id, j));
                } else if j == p0.len() {
                    assert(!is_seat(p0, player_id, i));
                }
            }
        }
        true
    }

    /// Unseats `player_id` and drops it from the ready list; `true` when it was seated.
    pub fn remove_player(&mut self, player_id: PlayerId) -> (r: bool)
        requires
            old(self).wf(),
        ensures
            final(self).wf(),
            r == old(self).seated(player_id),
            final(self).players@ == old(self).players@.filter(|p: Player| p.id != player_id),
            final(self).ready_players@ == old(self).ready_players@.filter(|q: PlayerId| q != player_id),
            final(self).game_state == old(self).game_state,
    {
        let ghost ps = self.players@;
        let ghost rs = self.ready_players@;
        let ghost f = |p: Player| p.id != player_id;
        let ghost g = |q: PlayerId| q != player_id;
        let mut kept: Vec<Player> = Vec::new();
        let mut found = false;
        let mut i: usize = 0;
        let n = self.players.len();
        while i < n
            invariant
                n == ps.len(),
                self.players@ == ps,
                i <= n,
                f == (|p: Player| p.id != player_id),
                kept@ == ps.subrange(0, i as int).filter(f),
                found == exists|k: int| 0 <= k < i && #[trigger] ps[k].id == player_id,
                distinct_ids(ps),
                forall|a: int| #![trigger kept@[a]] 0 <= a < kept@.len() ==> exists|m: int| 0 <= m < i && #[trigger] ps[m] == kept@[a],
                distinct_ids(kept@),
            decreases n - i,
        {
            proof {
                assert(ps.subrange(0, i + 1) == ps.subrange(0, i as int).push(ps[i as int]));
                ps.subrange(0, i as int).lemma_filter_push(ps[i as int], f);
            }
            if self.players[i].id != player_id {
                let ghost k0 = kept@;
                kept.push(copy_player(&self.players[i]));
                proof {
                    assert forall|a: int| #![trigger kept@[a]] 0 <= a < kept@.len() implies exists|m: int| 0 <= m < i + 1 && #[trigger] ps[m] == kept@[a] by {
                        if a < k0.len() {
                            let m = choose|m: int| 0 <= m < i && #[trigger] ps[m] == k0[a];
                            assert(ps[m] == kept@[a]);
                        } else {
                            assert(ps[i as int] == kept@[a]);
                        }
                    }
                    assert forall|a: int, b: int| 0 <= a < kept@.len() && 0 <= b < kept@.len() && a != b
                        implies #[trigger] kept@[a].id != #[trigger] kept@[b].id by {
                        if a == k0.len() {
                            let m = choose|m: int| 0 <= m < i && #[trigger] ps[m] == k0[b];
                            assert(ps[m].id != ps[i as int].id);
                        } else if b == k0.len() {
                            let m = choose|m: int| 0 <= m < i && #[trigger] ps[m] == k0[a];
                            assert(ps[m].id != ps[i as int].id);
                        } else {
                            assert(k0[a].id != k0[b].id);
                        }
                    }
                }
            } else {
                found = true;
            }
            i = i + 1;
        }
        proof {
            assert(ps.subrange(0, n as int) == ps);
            if found {
                let k = choose|k: int| 0 <= k < n && #[trigger] ps[k].id == player_id;
                assert(is_seat(ps, player_id, k));
            }
            if old(self).seated(player_id) {
                let k = choose|k: int| is_seat(ps, player_id, k);
                assert(ps[k].id == player_id);
            }
        }
        let mut ready: Vec<PlayerId> = Vec::new();
        let mut j: usize = 0;
        let m = self.ready_players.len();
        while j < m
            invariant
                m == rs.len(),
                self.ready_players@ == rs,
                j <= m,
                g == (|q: PlayerId| q != player_id),
                ready@ == rs.subrange(0, j as int).filter(g),
            decreases m - j,
        {
            proof {
                assert(rs.subrange(0, j + 1) == rs.subrange(0, j as int).push(rs[j as int]));
                rs.subrange(0, j as int).lemma_filter_push(rs[j as int], g);
            }
            if self.ready_players[j] != player_id {
                ready.push(self.ready_players[j]);
            }
            j = j + 1;
        }
        proof { assert(rs.subrange(0, m as int) == rs); }
        self.players = kept;
        self.ready_players = ready;
        found
    }

    /// Whether every seated player is ready and at least two are seated.
    pub open spec fn all_ready(&self) -> bool {
        self.players@.len() >= 2 && self.ready_players@.len() == self.players@.len()
    }

    /// Marks a seated player ready (or not); once every seated player is ready and at
    /// least two are seated, the hand starts.
    pub fn set_player_ready(&mut self, player_id: PlayerId, ready: bool)
        requires
            old(self).wf(),
        ensures
            final(self).wf(),
            final(self).players@.len() == old(self).players@.len(),
            !old(self).seated(player_id) ==> final(self).ready_players@ == old(self).ready_players@,
            final(self).all_ready() && final(self).players@.len() <= 4 ==> final(self).state == RoomState::Playing
                && final(self).game_state is Some,
            old(self).seated(player_id) && ready ==> final(self).ready_players@.contains(player_id),
            old(self).seated(player_id) && !ready ==> !final(self).ready_players@.contains(player_id),
    {
        if self.find_player(player_id).is_none() {
            if self.players.len() >= 2 && self.ready_players.len() == self.players.len() {
                self.start_game();
            }
            return;
        }
        if ready {
            let mut present = false;
            let mut i: usize = 0;
            while i < self.ready_players.len()
                invariant
                    i <= self.ready_players@.len(),
                    present == exists|k: int| 0 <= k < i && self.ready_players@[k] == player_id,
                decreases self.ready_players@.len() - i,
            {
                if self.ready_players[i] == player_id {
                    present = true;
                }
                i = i + 1;
            }
            if !present {
                self.ready_players.push(player_id);
                proof { assert(self.ready_players@.last() == player_id); }
            } else {
                proof {
                    let k = choose|k: int| 0 <= k < self.ready_players@.len() && self.ready_players@[k] == player_id;
                    assert(self.ready_players@[k] == player_id);
                }
            }
        } else {
            let mut kept: Vec<PlayerId> = Vec::new();
            let mut i: usize = 0;
            while i < self.ready_players.len()
                invariant
                    i <= self.ready_players@.len(),
                    forall|k: int| 0 <= k < kept@.len() ==> kept@[k] != player_id,
                decreases self.ready_players@.len() - i,
            {
                if self.ready_players[i] != player_id {
                    kept.push(self.ready_players[i]);
                }
                i = i + 1;
            }
            self.ready_players = kept;
        }
        if self.players.len() >= 2 && self.ready_players.len() == self.players.len() {
            let ghost r0 = self.ready_players@;
            self.start_game();
            assert(self.ready_players@ == r0);
        }
    }

    /// Starts a hand with the seated players, the first seat dealing, and gives every
    /// player the full skill loadout. Does nothing unless two to four are seated.
    pub fn start_game(&mut self)
        requires
            old(self).wf(),
        ensures
            final(self).wf(),
            final(self).players@ == old(self).players@,
            final(self).ready_players@ == old(self).ready_players@,
            2 <= old(self).players@.len() <= 4 ==> final(self).state == RoomState::Playing
                && final(self).game_state is Some && final(self).skill_manager is Some
                && final(self).game_state->Some_0.phase == GamePhase::Playing
                && final(self).game_state->Some_0.players@.len() == old(self).players@.len(),
            !(2 <= old(self).players@.len() <= 4) ==> final(self).state == old(self).state
                && final(self).game_state == old(self).game_state,
    {
        if self.players.len() < 2 || self.players.len() > 4 {
            return;
        }
        let mut game = GameState::new();
        let mut i: usize = 0;
        while i < self.players.len()
            invariant
                i <= self.players@.len(),
                2 <= self.players@.len() <= 4,
                distinct_ids(self.players@),
                game.wf(),
                game.phase == GamePhase::Waiting,
                game.players@.len() == i,
                game.dealer_idx == 0,
                forall|k: int| 0 <= k < i ==> #[trigger] game.players@[k].id == self.players@[k].id,
            decreases self.players@.len() - i,
        {
            let p = copy_player(&self.players[i]);
            proof {
                assert forall|s: int| !is_seat(game.players@, p.id, s) by {
                    if 0 <= s < i {
                        assert(game.players@[s].id == self.players@[s].id);
                    }
                }
            }
            let added = game.add_player(p);
            i = i + 1;
        }
        let started = game.start_game();
        match started {
            Ok(()) => {
                let mut skills = SkillManager::new();
                let mut k: usize = 0;
                while k < self.players.len()
                    invariant
                        k <= self.players@.len(),
                    decreases self.players@.len() - k,
                {
                    skills.assign_skills(self.players[k].id, create_all_skills());
                    k = k + 1;
                }
                self.state = RoomState::Playing;
                self.game_state = Some(game);
                self.skill_manager = Some(skills);
            },
            Err(_) => {},
        }
    }

    /// Discards for `player_id` in the hand in play.
    pub fn play_card(&mut self, player_id: PlayerId, card_idx: usize) -> (r: Result<(), GameError>)
        requires
            old(self).wf(),
        ensures
            final(self).wf(),
            final(self).players@ == old(self).players@,
            old(self).game_state.is_none() ==> r == Err::<(), GameError>(GameError::GameNotStarted),
            old(self).game_state matches Some(g) ==> match g.play_error(player_id, card_idx) {
                Some(e) => r == Err::<(), GameError>(e) && final(self).game_state == old(self).game_state,
                None => r is Ok && final(self).game_state is Some && g.play_post(
                    final(self).game_state->Some_0,
                    player_id,
                    card_idx,
                ),
            },
            old(self).game_state.is_none() ==> final(self).game_state.is_none(),
    {
        match &mut self.game_state {
            Some(game_state) => {
                match game_state.play_card(player_id, card_idx) {
                    Ok(_) => Ok(()),
                    Err(e) => Err(e),
                }
            },
            None => Err(GameError::GameNotStarted),
        }
    }

    /// Claims the last discard as a chi for `player_id`.
    pub fn chi(&mut self, player_id: PlayerId, card_indices: Vec<usize>) -> (r: Result<(), GameError>)
        requires
            old(self).wf(),
        ensures
            final(self).wf(),
            final(self).players@ == old(self).players@,
            old(self).game_state.is_none() ==> r == Err::<(), GameError>(GameError::GameNotStarted),
            old(self).game_state matches Some(g) ==> match g.chi_error(player_id, card_indices@) {
                Some(e) => r == Err::<(), GameError>(e) && final(self).game_state == old(self).game_state,
                None => r is Ok && final(self).game_state is Some && exists|m: Meld| g.chi_post(
                    final(self).game_state->Some_0,
                    player_id,
                    card_indices@,
                    m,
                ),
            },
    {
        match &mut self.game_state {
            Some(game_state) => {
                let ghost g0 = *game_state;
                let ghost idx = card_indices@;
                match game_state.chi(player_id, card_indices) {
                    Ok(m) => {
                        proof { assert(g0.chi_post(*game_state, player_id, idx, m)); }
                        Ok(())
                    },
                    Err(e) => Err(e),
                }
            },
            None => Err(GameError::GameNotStarted),
        }
    }

    /// Claims the last discard as a peng, naming the matching card by its position in
    /// the claimer's hand.
    pub fn peng(&mut self, player_id: PlayerId, card_idx: usize) -> (r: Result<(), GameError>)
        requires
            old(self).wf(),
        ensures
            final(self).wf(),
            final(self).players@ == old(self).players@,
            old(self).game_state.is_none() ==> r == Err::<(), GameError>(GameError::GameNotStarted),
            old(self).game_state matches Some(g) ==> {
                &&& !g.has_hand(player_id) ==> r == Err::<(), GameError>(GameError::PlayerNotFound)
                &&& g.has_hand(player_id) && card_idx >= g.hands@[g.seat(player_id)].card_seq().len()
                    ==> r == Err::<(), GameError>(GameError::CardNotInHand)
                &&& g.has_hand(player_id) && card_idx < g.hands@[g.seat(player_id)].card_seq().len()
                    ==> match g.peng_error(player_id, g.hands@[g.seat(player_id)].card_seq()[card_idx as int]) {
                        Some(e) => r == Err::<(), GameError>(e),
                        None => r is Ok && final(self).game_state is Some && exists|m: Meld| g.peng_post(
                            final(self).game_state->Some_0,
                            player_id,
                            g.hands@[g.seat(player_id)].card_seq()[card_idx as int],
                            m,
                        ),
                    }
            },
    {
        match &mut self.game_state {
            Some(game_state) => {
                let s = match game_state.seat_of(player_id) {
                    Some(s) => s,
                    None => { return Err(GameError::PlayerNotFound); },
                };
                proof { game_state.lemma_seat_is(player_id, s as int); }
                if s >= game_state.hands.len() {
                    return Err(GameError::PlayerNotFound);
                }
                if card_idx >= game_state.hands[s].len() {
                    return Err(GameError::CardNotInHand);
                }
                let card: Card = game_state.hands[s].cards()[card_idx];
                let ghost g0 = *game_state;
                match game_state.peng(player_id, card) {
                    Ok(m) => {
                        proof { assert(g0.peng_post(*game_state, player_id, card, m)); }
                        Ok(())
                    },
                    Err(e) => Err(e),
                }
            },
            None => Err(GameError::GameNotStarted),
        }
    }

    pub fn can_start(&self) -> (r: bool)
        ensures
            r == self.all_ready(),
    {
        self.players.len() >= 2 && self.ready_players.len() == self.players.len()
    }

    pub fn get_player_count(&self) -> (r: usize)
        ensures
            r == self.players@.len(),
    {
        self.players.len()
    }

    pub fn is_full(&self) -> (r: bool)
        ensures
            r == (self.players@.len() >= self.max_players),
    {
        self.players.len() >= self.max_players
    }

    /// Applies a client's intent to the room and returns the events for that client.
    /// Rule refusals come back as an `Error` event and leave the room as it was.
    pub fn handle_intent(&mut self, player_id: PlayerId, msg: ClientMessage) -> (r: Vec<ServerMessage>)
        requires
            old(self).wf(),
        ensures
            final(self).wf(),
            msg matches ClientMessage::PlayCard { card_idx, .. } ==> r@.len() == 1 && (r@[0] is CardPlayed
                <==> (old(self).game_state matches Some(g) && g.play_error(player_id, card_idx) is None)),
            msg matches ClientMessage::Chi { card_indices, .. } ==> r@.len() == 1 && (r@[0] is MeldFormed
                <==> (old(self).game_state matches Some(g) && g.chi_error(player_id, card_indices@) is None)),
            msg matches ClientMessage::PlayCard { card_idx, .. } ==> (r@[0] matches ServerMessage::CardPlayed {
                player_id: p, card } ==> p == player_id && old(self).game_state is Some
                && final(self).game_state is Some
                && card == old(self).game_state->Some_0.hands@[old(self).game_state->Some_0.current_player_idx as int].card_seq()[card_idx as int]
                && final(self).game_state->Some_0.discard_pile@ == old(self).game_state->Some_0.discard_pile@.push((player_id, card))),
            msg matches ClientMessage::Chi { card_indices, .. } ==> (r@[0] matches ServerMessage::MeldFormed {
                player_id: p, meld } ==> p == player_id && old(self).game_state is Some
                && final(self).game_state is Some
                && meld.cards@ == old(self).game_state->Some_0.chi_cards(player_id, card_indices@)
                && final(self).game_state->Some_0.discard_pile@ == old(self).game_state->Some_0.discard_pile@.drop_last()
                && same_meld(final(self).game_state->Some_0.hands@[old(self).game_state->Some_0.seat(player_id)].meld_seq().last(), meld)),
            msg matches ClientMessage::Peng { card_idx, .. } ==> r@.len() == 1 && (r@[0] is MeldFormed
                <==> (old(self).game_state matches Some(g) && g.has_hand(player_id)
                && card_idx < g.hands@[g.seat(player_id)].card_seq().len()
                && g.peng_error(player_id, g.hands@[g.seat(player_id)].card_seq()[card_idx as int]) is None)),
            msg matches ClientMessage::Hu { .. } ==> (r@[0] is PlayerHu <==> (old(self).game_state matches Some(g)
                && g.hu_error(player_id) is None)) && (r@[0] is PlayerHu ==> r@.len() == 2
                && r@[1] == (ServerMessage::GameEnded { winner: Some(player_id) }) && final(self).state == RoomState::Finished)
                && (!(r@[0] is PlayerHu) ==> r@.len() == 1 && r@[0] is Error),
            msg matches ClientMessage::JoinRoom { .. } ==> r@.len() == 1 && (r@[0] is RoomJoined
                <==> (old(self).players@.len() < old(self).max_players && !old(self).seated(player_id))),
            msg matches ClientMessage::LeaveRoom { room_id } ==> (old(self).seated(player_id) ==> r@.len() == 1
                && r@[0] == (ServerMessage::RoomLeft { room_id })) && (!old(self).seated(player_id) ==> r@.len() == 0),
            msg is Ready ==> r@.len() >= 1 && r@[0] == (ServerMessage::PlayerReady { player_id }),
            msg is Ready && old(self).seated(player_id) ==> final(self).ready_players@.contains(player_id),
            msg is JoinRoom && r@[0] is RoomJoined ==> final(self).seated(player_id),
            msg is LeaveRoom ==> !final(self).seated(player_id),
            msg is UseSkill ==> final(self).players@ == old(self).players@,
            // Replies never hold a game view: each player's view comes from `state_updates`.
            forall|i: int| 0 <= i < r@.len() ==> !(#[trigger] r@[i] is GameStateUpdate),
            msg is UseSkill ==> r@.len() == 1 && (r@[0] is SkillUsed || r@[0] is Error),
    {
        let mut events: Vec<ServerMessage> = Vec::new();
        match msg {
            ClientMessage::JoinRoom { room_id } => {
                if self.add_player(player_id) {
                    proof {
                        assert(is_seat(self.players@, player_id, self.players@.len() - 1));
                    }
                    events.push(ServerMessage::RoomJoined { room_id, player_id });
                } else {
                    events.push(ServerMessage::Error { message: GameError::GameFull.to_string() });
                }
            },
            ClientMessage::LeaveRoom { room_id } => {
                if self.remove_player(player_id) {
                    events.push(ServerMessage::RoomLeft { room_id });
                }
            },
            ClientMessage::Ready { .. } => {
                let was_playing = self.state == RoomState::Playing;
                self.set_player_ready(player_id, true);
                events.push(ServerMessage::PlayerReady { player_id });
                if !was_playing && self.state == RoomState::Playing && self.players.len() > 0 {
                    events.push(ServerMessage::GameStarted { dealer: self.players[0].id });
                }
            },
            ClientMessage::PlayCard { card_idx, .. } => {
                match &mut self.game_state {
                    Some(game_state) => {
                        match game_state.play_card(player_id, card_idx) {
                            Ok(card) => events.push(ServerMessage::CardPlayed { player_id, card }),
                            Err(e) => events.push(ServerMessage::Error { message: e.to_string() }),
                        }
                    },
                    None => events.push(ServerMessage::Error { message: GameError::GameNotStarted.to_string() }),
                }
            },
            ClientMessage::Chi { card_indices, .. } => {
                match &mut self.game_state {
                    Some(game_state) => {
                        match game_state.chi(player_id, card_indices) {
                            Ok(meld) => events.push(ServerMessage::MeldFormed { player_id, meld }),
                            Err(e) => events.push(ServerMessage::Error { message: e.to_string() }),
                        }
                    },
                    None => events.push(ServerMessage::Error { message: GameError::GameNotStarted.to_string() }),
                }
            },
            ClientMessage::Peng { card_idx, .. } => {
                match &mut self.game_state {
                    Some(game_state) => {
                        let found = match game_state.seat_of(player_id) {
                            Some(s) => {
                                proof { game_state.lemma_seat_is(player_id, s as int); }
                                if s < game_state.hands.len() {
                                    if card_idx < game_state.hands[s].len() {
                                        Ok(game_state.hands[s].cards()[card_idx])
                                    } else {
                                        Err(GameError::CardNotInHand)
                                    }
                                } else {
                                    Err(GameError::PlayerNotFound)
                                }
                            },
                            None => Err(GameError::PlayerNotFound),
                        };
                        match found {
                            Ok(card) => {
                                match game_state.peng(player_id, card) {
                                    Ok(meld) => events.push(ServerMessage::MeldFormed { player_id, meld }),
                                    Err(e) => events.push(ServerMessage::Error { message: e.to_string() }),
                                }
                            },
                            Err(e) => events.push(ServerMessage::Error { message: e.to_string() }),
                        }
                    },
                    None => events.push(ServerMessage::Error { message: GameError::GameNotStarted.to_string() }),
                }
            },
            ClientMessage::Hu { .. } => {
                let result = match &mut self.game_state {
                    Some(game_state) => game_state.declare_hu(player_id),
                    None => Err(GameError::GameNotStarted),
                };
                match result {
                    Ok(win) => {
                        self.state = RoomState::Finished;
                        events.push(ServerMessage::PlayerHu { player_id, is_zimo: win.is_zimo });
                        events.push(ServerMessage::GameEnded { winner: Some(player_id) });
                    },
                    Err(e) => events.push(ServerMessage::Error { message: e.to_string() }),
                }
            },
            ClientMessage::UseSkill { skill_id, target, .. } => {
                match self.use_skill(player_id, skill_id, target) {
                    Ok(ev) => events.push(ev),
                    Err(e) => events.push(ServerMessage::Error { message: e.to_string() }),
                }
            },
            _ => {},
        }
        events
    }

    /// Uses the skill `skill_id` of `player_id` in the hand in play: the first of the
    /// player's skills with that identifier is tried, and a success is reported as a
    /// `SkillUsed` event carrying the skill's name and effect data.
    pub fn use_skill(&mut self, player_id: PlayerId, skill_id: u32, target: Option<PlayerId>) -> (r: Result<ServerMessage, GameError>)
        requires
            old(self).wf(),
        ensures
            final(self).wf(),
            final(self).players@ == old(self).players@,
            r is Ok ==> r->Ok_0 is SkillUsed,
            old(self).game_state.is_none() || old(self).skill_manager.is_none()
                ==> r == Err::<ServerMessage, GameError>(GameError::GameNotStarted),
            old(self).game_state is Some && old(self).skill_manager is Some ==> ({
                let g = old(self).game_state->Some_0;
                let m = old(self).skill_manager->Some_0.skills_map();
                let list = m[player_id.0];
                &&& (!m.contains_key(player_id.0) || forall|k: int| 0 <= k < list.len()
                    ==> (#[trigger] list[k]).skill.spec_id() != skill_id) ==> r is Err
                    && final(self).game_state == old(self).game_state
                &&& forall|k: int| m.contains_key(player_id.0) && #[trigger] first_skill_at(list, skill_id, k) ==> {
                    let inst = list[k];
                    let ok = inst.remaining_uses > 0 && inst.skill.spec_can_use(g, player_id)
                        && inst.skill.spec_succeeds(g, player_id, target);
                    let fm = final(self).skill_manager->Some_0.skills_map();
                    &&& (r is Ok <==> ok)
                    &&& final(self).skill_manager is Some
                    &&& fm.contains_key(player_id.0)
                    &&& fm[player_id.0][k].remaining_uses == if ok { inst.remaining_uses - 1 } else {
                        inst.remaining_uses as int }
                    &&& ok ==> (r->Ok_0 matches ServerMessage::SkillUsed { player_id: p, skill_name, effect }
                        && p == player_id && skill_name@ == inst.skill.spec_name()
                        && inst.skill.spec_effect(g, player_id, target, effect))
                }
            }),
    {
        let idx = match &self.skill_manager {
            Some(m) => {
                match m.get_player_skills(player_id) {
                    Some(list) => {
                        let mut found: Option<usize> = None;
                        let mut i: usize = 0;
                        while i < list.len()
                            invariant
                                i <= list@.len(),
                                found matches Some(f) ==> first_skill_at(list@, skill_id, f as int),
                                found is None ==> forall|j: int| 0 <= j < i ==> (#[trigger] list@[j]).skill.spec_id() != skill_id,
                            decreases list@.len() - i,
                        {
                            if found.is_none() && list[i].skill.id() == skill_id {
                                found = Some(i);
                            }
                            i = i + 1;
                        }
                        found
                    },
                    None => None,
                }
            },
            None => None,
        };
        proof {
            if self.skill_manager is Some {
                let m = self.skill_manager->Some_0.skills_map();
                if idx is Some {
                    let k = idx->Some_0 as int;
                    assert forall|k2: int| m.contains_key(player_id.0) && #[trigger] first_skill_at(m[player_id.0], skill_id, k2)
                        implies k2 == k by {
                        if k2 < k {
                            assert(m[player_id.0][k2].skill.spec_id() != skill_id);
                        } else if k < k2 {
                            assert(m[player_id.0][k].skill.spec_id() != skill_id);
                        }
                    }
                }
            }
        }
        match (&mut self.game_state, &mut self.skill_manager) {
            (Some(game_state), Some(manager)) => {
                let k = match idx {
                    Some(k) => k,
                    None => {
                        proof {
                            let m = manager.skills_map();
                            if m.contains_key(player_id.0) {
                                assert forall|k2: int| !first_skill_at(m[player_id.0], skill_id, k2) by {
                                    if 0 <= k2 < m[player_id.0].len() {
                                        assert(m[player_id.0][k2].skill.spec_id() != skill_id);
                                    }
                                }
                            }
                        }
                        return Err(GameError::SkillError(String::from_str("没有该技能")));
                    },
                };
                let name = match manager.get_player_skills(player_id) {
                    Some(list) => {
                        if k < list.len() {
                            String::from_str(list[k].skill.name())
                        } else {
                            String::new()
                        }
                    },
                    None => String::new(),
                };
                match manager.use_skill(player_id, k, game_state, target) {
                    Some(result) => {
                        if result.success {
                            Ok(ServerMessage::SkillUsed { player_id, skill_name: name, effect: result.effect_data })
                        } else {
                            Err(GameError::SkillError(result.message))
                        }
                    },
                    None => Err(GameError::SkillError(String::from_str("没有该技能"))),
                }
            },
            _ => Err(GameError::GameNotStarted),
        }
    }

    /// The state update each seated player receives: the game as that player may see
    /// it, holding no concealed card but the player's own.
    pub fn state_updates(&self) -> (r: Vec<(PlayerId, GameView)>)
        requires
            self.wf(),
        ensures
            self.game_state.is_none() ==> r@.len() == 0,
            self.game_state is Some ==> r@.len() == self.players@.len(),
            forall|i: int| 0 <= i < r@.len() ==> {
                let g = self.game_state->Some_0;
                let v = (#[trigger] r@[i]).1;
                &&& r@[i].0 == self.players@[i].id
                &&& v.viewer == self.players@[i].id
                &&& v.own_cards@ == if g.has_hand(v.viewer) { g.hands@[g.seat(v.viewer)].card_seq() } else { Seq::empty() }
                &&& forall|k: int| 0 <= k < v.seats@.len() ==> (#[trigger] v.seats@[k]).hand_count
                    == if k < g.hands@.len() { g.hands@[k].card_seq().len() } else { 0 }
            },
    {
        let mut out: Vec<(PlayerId, GameView)> = Vec::new();
        match &self.game_state {
            Some(game) => {
                let mut i: usize = 0;
                while i < self.players.len()
                    invariant
                        i <= self.players@.len(),
                        game.wf(),
                        self.game_state == Some(*game),
                        out@.len() == i,
                        forall|j: int| 0 <= j < i ==> {
                            let v = (#[trigger] out@[j]).1;
                            &&& out@[j].0 == self.players@[j].id
                            &&& v.viewer == self.players@[j].id
                            &&& v.own_cards@ == if game.has_hand(v.viewer) { game.hands@[game.seat(v.viewer)].card_seq() } else { Seq::empty() }
                            &&& forall|k: int| 0 <= k < v.seats@.len() ==> (#[trigger] v.seats@[k]).hand_count
                                == if k < game.hands@.len() { game.hands@[k].card_seq().len() } else { 0 }
                        },
                    decreases self.players@.len() - i,
                {
                    let id = self.players[i].id;
                    out.push((id, game.view_for(id)));
                    i = i + 1;
                }
            },
            None => {},
        }
        out
    }

    /// Settles the claim window on the last discard: each claim names a player and a
    /// kind, and the winner is picked by `resolve_claims` (hu, then peng/sao, then chi
    /// from the next seat; nearest seat clockwise on ties). `None` when no hand is in
    /// play, nothing was discarded, or no claim is legal.
    pub fn resolve_claim_window(&self, claims: &Vec<(PlayerId, ClaimKind)>) -> (r: Option<PlayerId>)
        requires
            self.wf(),
        ensures
            r matches Some(p) ==> exists|i: int| 0 <= i < claims@.len() && (#[trigger] claims@[i]).0 == p,
            self.game_state.is_none() ==> r.is_none(),
    {
        match &self.game_state {
            Some(game) => {
                let n = game.players.len();
                if game.phase == GamePhase::Waiting || game.discard_pile.len() == 0 || n < 2 {
                    return None;
                }
                let cur = game.current_player_idx;
                let discarder = if cur == 0 { n - 1 } else { cur - 1 };
                let mut seated: Vec<Claim> = Vec::new();
                let mut owners: Vec<PlayerId> = Vec::new();
                let mut i: usize = 0;
                while i < claims.len()
                    invariant
                        i <= claims@.len(),
                        n == game.players@.len(),
                        seated@.len() == owners@.len(),
                        forall|k: int| 0 <= k < owners@.len() ==> exists|j: int| 0 <= j < claims@.len()
                            && (#[trigger] claims@[j]).0 == #[trigger] owners@[k],
                        forall|k: int| 0 <= k < seated@.len() ==> (#[trigger] seated@[k]).seat < n
                            && game.players@[seated@[k].seat as int].id == owners@[k],
                    decreases claims@.len() - i,
                {
                    let (pid, kind) = claims[i];
                    match game.seat_of(pid) {
                        Some(s) => {
                            seated.push(Claim { seat: s, kind });
                            owners.push(pid);
                            proof { assert(claims@[i as int].0 == owners@[owners@.len() - 1]); }
                        },
                        None => {},
                    }
                    i = i + 1;
                }
                match resolve_claims(discarder, n, &seated) {
                    Some(w) => {
                        proof {
                            let k = choose|k: int| 0 <= k < seated@.len() && seated@[k] == w;
                            assert(seated@[k] == w);
                        }
                        let winner = game.players[w.seat].id;
                        proof {
                            let k = choose|k: int| 0 <= k < seated@.len() && seated@[k] == w;
                            assert(owners@[k] == winner);
                        }
                        Some(winner)
                    },
                    None => None,
                }
            },
            None => None,
        }
    }
}

} // verus!
