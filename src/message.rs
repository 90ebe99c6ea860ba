use vstd::prelude::*;
use crate::card::Card;
use crate::meld::Meld;
use crate::player::PlayerId;
use crate::skills::effect::EffectData;

verus! {

/// Intents a client sends.
#[derive(Debug, Clone)]
pub enum ClientMessage {
    Authenticate { token: String },
    JoinRoom { room_id: String },
    LeaveRoom { room_id: String },
    Ready { room_id: String },
    StartGame { room_id: String },
    PlayCard { room_id: String, card_idx: usize },
    Chi { room_id: String, card_indices: Vec<usize> },
    Peng { room_id: String, card_idx: usize },
    Sao { room_id: String, card_idx: usize },
    Hu { room_id: String },
    Pass { room_id: String },
    UseSkill { room_id: String, skill_id: u32, target: Option<PlayerId> },
    Chat { room_id: String, message: String },
}

/// Events the server sends.
#[derive(Debug, Clone)]
pub enum ServerMessage {
    Welcome { player_id: PlayerId, message: String },
    Error { message: String },
    RoomJoined { room_id: String, player_id: PlayerId },
    RoomLeft { room_id: String },
    PlayerJoined { player_id: PlayerId, name: String },
    PlayerLeft { player_id: PlayerId },
    PlayerReady { player_id: PlayerId },
    GameStarted { dealer: PlayerId },
    GameStateUpdate { state: String },
    YourTurn,
    CardPlayed { player_id: PlayerId, card: Card },
    MeldFormed { player_id: PlayerId, meld: Meld },
    PlayerHu { player_id: PlayerId, is_zimo: bool },
    GameEnded { winner: Option<PlayerId> },
    SkillUsed { player_id: PlayerId, skill_name: String, effect: Option<EffectData> },
    BeanUpdate { balance: u64 },
    RankUpdate { tier: String, stars: u8 },
    ChatMessage { player_id: PlayerId, message: String },
}

impl ServerMessage {
    /// Events every seated player receives: seat changes, the course of the hand and
    /// chat. None of them holds a concealed card (a played card is on the pile, a meld
    /// is declared). Replies that concern the sender alone are not public.
    pub open spec fn spec_public(&self) -> bool {
        match self {
            ServerMessage::PlayerJoined { .. } | ServerMessage::PlayerLeft { .. }
            | ServerMessage::PlayerReady { .. } | ServerMessage::GameStarted { .. }
            | ServerMessage::CardPlayed { .. } | ServerMessage::MeldFormed { .. }
            | ServerMessage::PlayerHu { .. } | ServerMessage::GameEnded { .. }
            | ServerMessage::ChatMessage { .. } => true,
            _ => false,
        }
    }

    pub fn is_public(&self) -> (r: bool)
        ensures
            r == self.spec_public(),
    {
        match self {
            ServerMessage::PlayerJoined { .. } | ServerMessage::PlayerLeft { .. }
            | ServerMessage::PlayerReady { .. } | ServerMessage::GameStarted { .. }
            | ServerMessage::CardPlayed { .. } | ServerMessage::MeldFormed { .. }
            | ServerMessage::PlayerHu { .. } | ServerMessage::GameEnded { .. }
            | ServerMessage::ChatMessage { .. } => true,
            _ => false,
        }
    }
}

impl ClientMessage {
    /// The room an intent addresses, if any.
    pub fn room_id(&self) -> (r: Option<&String>)
        ensures
            match self {
                ClientMessage::Authenticate { .. } => r.is_none(),
                _ => r.is_some(),
            },
    {
        match self {
            ClientMessage::Authenticate { .. } => None,
            ClientMessage::JoinRoom { room_id } => Some(room_id),
            ClientMessage::LeaveRoom { room_id } => Some(room_id),
            ClientMessage::Ready { room_id } => Some(room_id),
            ClientMessage::StartGame { room_id } => Some(room_id),
            ClientMessage::PlayCard { room_id, .. } => Some(room_id),
            ClientMessage::Chi { room_id, .. } => Some(room_id),
            ClientMessage::Peng { room_id, .. } => Some(room_id),
            ClientMessage::Sao { room_id, .. } => Some(room_id),
            ClientMessage::Hu { room_id } => Some(room_id),
            ClientMessage::Pass { room_id } => Some(room_id),
            ClientMessage::UseSkill { room_id, .. } => Some(room_id),
            ClientMessage::Chat { room_id, .. } => Some(room_id),
        }
    }
}

} // verus!
