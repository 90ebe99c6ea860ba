use vstd::prelude::*;
use vstd::string::*;

verus! {

/// Relies on uuid's `Uuid::new_v4` (a random version-4 identifier) and
/// `Uuid::as_u128`; nothing is promised of the value drawn.
#[verifier::external_body]
fn random_id() -> (r: u128) {
    uuid::Uuid::new_v4().as_u128()
}

/// Opaque 128-bit player identifier.
#[derive(Debug, Clone, Copy, PartialEq, Eq, Hash, Structural)]
pub struct PlayerId(pub u128);

impl PlayerId {
    /// A fresh random identifier.
    pub fn new() -> (r: PlayerId) {
        PlayerId(random_id())
    }
}

/// Where a player stands in the life of a room.
#[derive(Debug, Clone, Copy, PartialEq, Eq, Structural)]
pub enum PlayerState {
    Idle,
    Ready,
    Playing,
    Waiting,
    Finished,
    Disconnected,
}

/// A seated player.
#[derive(Debug, Clone)]
pub struct Player {
    pub id: PlayerId,
    pub name: String,
    pub state: PlayerState,
    pub is_dealer: bool,
    pub position: u8,
}

impl Player {
    /// A new idle player with a fresh identifier.
    pub fn new(name: &str) -> (r: Player)
        ensures
            r.name@ == name@,
            r.state == PlayerState::Idle,
            !r.is_dealer,
            r.position == 0,
    {
        Player::with_id(PlayerId::new(), name)
    }

    /// A new idle player with the given identifier.
    pub fn with_id(id: PlayerId, name: &str) -> (r: Player)
        ensures
            r.id == id,
            r.name@ == name@,
            r.state == PlayerState::Idle,
            !r.is_dealer,
            r.position == 0,
    {
        Player { id, name: String::from_str(name), state: PlayerState::Idle, is_dealer: false, position: 0 }
    }

    pub fn set_ready(&mut self)
        ensures
            final(self).state == PlayerState::Ready,
            final(self).id == old(self).id,
            final(self).name@ == old(self).name@,
            final(self).is_dealer == old(self).is_dealer,
            final(self).position == old(self).position,
    {
        self.state = PlayerState::Ready;
    }

    pub fn set_playing(&mut self)
        ensures
            final(self).state == PlayerState::Playing,
            final(self).id == old(self).id,
            final(self).name@ == old(self).name@,
            final(self).is_dealer == old(self).is_dealer,
            final(self).position == old(self).position,
    {
        self.state = PlayerState::Playing;
    }

    pub fn set_dealer(&mut self, is_dealer: bool)
        ensures
            final(self).is_dealer == is_dealer,
            final(self).id == old(self).id,
            final(self).name@ == old(self).name@,
            final(self).state == old(self).state,
            final(self).position == old(self).position,
    {
        self.is_dealer = is_dealer;
    }
}

} // verus!
