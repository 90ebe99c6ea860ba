//! Client-side models and state, independent of any presentation layer.

use vstd::prelude::*;
use crate::game::GameState;
use crate::player::PlayerId;

verus! {

/// A player's public profile.
#[derive(Debug, Clone)]
pub struct PlayerProfile {
    pub id: String,
    pub nickname: String,
    pub avatar_url: Option<String>,
    pub happy_beans: u64,
    pub tier: String,
    pub stars: u8,
}

/// A skill as shown to its owner.
#[derive(Debug, Clone)]
pub struct SkillInfo {
    pub id: u32,
    pub name: String,
    pub description: String,
    pub category: String,
    pub remaining_uses: u8,
}

/// Life of a room as clients see it.
#[derive(Debug, Clone, Copy, PartialEq, Eq, Structural)]
pub enum RoomStatus {
    Waiting,
    Playing,
    Finished,
}

/// A room as listed to clients.
#[derive(Debug, Clone)]
pub struct RoomInfo {
    pub room_id: String,
    pub host_id: String,
    pub players: Vec<PlayerProfile>,
    pub max_players: usize,
    pub status: RoomStatus,
    pub base_bet: u64,
    pub skill_mode: bool,
}

/// The client's own identity and its copy of the game.
pub struct GameService {
    pub player_id: Option<PlayerId>,
    pub game_state: Option<GameState>,
}

impl GameService {
    pub fn new() -> (r: GameService)
        ensures
            r.player_id.is_none(),
            r.game_state.is_none(),
    {
        GameService { player_id: None, game_state: None }
    }

    /// Whether the client's player is the one on turn.
    pub fn is_my_turn(&self) -> (r: bool)
        ensures
            r == (self.player_id matches Some(pid) && self.game_state matches Some(g)
                && g.current_player_idx < g.players@.len() && g.players@[g.current_player_idx as int].id == pid),
    {
        match (self.player_id, &self.game_state) {
            (Some(pid), Some(state)) => {
                match state.get_current_player_id() {
                    Some(cur) => cur == pid,
                    None => false,
                }
            },
            _ => false,
        }
    }
}

/// Most notifications kept.
pub const MAX_NOTIFICATIONS: usize = 10;

/// Client session state.
#[derive(Debug, Clone)]
pub struct AppState {
    pub current_user: Option<PlayerId>,
    pub current_room: Option<String>,
    pub happy_beans: u64,
    pub notifications: Vec<String>,
}

impl AppState {
    pub fn new() -> (r: AppState)
        ensures
            r.current_user.is_none(),
            r.current_room.is_none(),
            r.happy_beans == 0,
            r.notifications@.len() == 0,
    {
        AppState { current_user: None, current_room: None, happy_beans: 0, notifications: Vec::new() }
    }

    /// Adds a notification, dropping the oldest when more than ten are kept.
    pub fn add_notification(&mut self, message: String)
        ensures
            old(self).notifications@.len() < MAX_NOTIFICATIONS ==> final(self).notifications@
                == old(self).notifications@.push(message),
            old(self).notifications@.len() >= MAX_NOTIFICATIONS ==> final(self).notifications@
                == old(self).notifications@.push(message).drop_first(),
            final(self).happy_beans == old(self).happy_beans,
    {
        self.notifications.push(message);
        if self.notifications.len() > MAX_NOTIFICATIONS {
            self.notifications.remove(0);
            proof {
                assert(self.notifications@ =~= old(self).notifications@.push(message).drop_first());
            }
        }
    }
}

} // verus!
