//! Server-side core of Guilin Paizi, an 80-card regional Chinese card game:
//! cards and melds, the hand state machine, skills, settlement and ranking.

pub mod card;
pub mod constants;
pub mod meld;
pub mod hand;
pub mod deck;
pub mod player;
pub mod error;
pub mod game;
pub mod economy;
pub mod text;
pub mod skills;
pub mod view;
pub mod message;
pub mod room;
pub mod anti_cheat;
pub mod client;
pub mod claims;
