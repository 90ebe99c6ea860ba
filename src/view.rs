use vstd::prelude::*;
use crate::card::Card;
use crate::game::{GameState, GamePhase};
use crate::meld::Meld;
use crate::player::PlayerId;

verus! {

/// What every player may see of a seat: who sits there, how many concealed cards
/// they hold, and their declared melds.
#[derive(Debug, Clone)]
pub struct SeatView {
    pub player_id: PlayerId,
    pub hand_count: usize,
    pub melds: Vec<Meld>,
}

/// One player's view of the game: their own concealed cards and the public state.
/// Other players' concealed cards appear only as counts.
#[derive(Debug, Clone)]
pub struct GameView {
    pub viewer: PlayerId,
    pub phase: GamePhase,
    pub own_cards: Vec<Card>,
    pub seats: Vec<SeatView>,
    pub discard_pile: Vec<(PlayerId, Card)>,
    pub deck_size: usize,
    pub dangdi: Option<Card>,
    pub current_player_idx: usize,
}

/// A copy of a sequence of cards.
pub fn copy_cards(cards: &[Card]) -> (r: Vec<Card>)
    ensures
        r@ == cards@,
{
    let mut out: Vec<Card> = Vec::new();
    let mut i: usize = 0;
    while i < cards.len()
        invariant
            i <= cards@.len(),
            out@ == cards@.subrange(0, i as int),
        decreases cards@.len() - i,
    {
        out.push(cards[i]);
        proof { assert(out@ =~= cards@.subrange(0, i + 1)); }
        i = i + 1;
    }
    proof { assert(out@ =~= cards@); }
    out
}

/// A copy of a meld.
pub fn copy_meld(m: &Meld) -> (r: Meld)
    ensures
        r.meld_type == m.meld_type,
        r.cards@ == m.cards@,
        r.from_opponent == m.from_opponent,
{
    Meld::new(m.meld_type, copy_cards(m.cards.as_slice()), m.from_opponent)
}

fn copy_melds(ms: &[Meld]) -> (r: Vec<Meld>)
    ensures
        r@.len() == ms@.len(),
        forall|i: int| 0 <= i < ms@.len() ==> (#[trigger] r@[i]).cards@ == ms@[i].cards@
            && r@[i].meld_type == ms@[i].meld_type && r@[i].from_opponent == ms@[i].from_opponent,
{
    let mut out: Vec<Meld> = Vec::new();
    let mut i: usize = 0;
    while i < ms.len()
        invariant
            i <= ms@.len(),
            out@.len() == i,
            forall|j: int| 0 <= j < i ==> (#[trigger] out@[j]).cards@ == ms@[j].cards@
                && out@[j].meld_type == ms@[j].meld_type && out@[j].from_opponent == ms@[j].from_opponent,
        decreases ms@.len() - i,
    {
        out.push(copy_meld(&ms[i]));
        i = i + 1;
    }
    out
}

fn copy_discards(d: &Vec<(PlayerId, Card)>) -> (r: Vec<(PlayerId, Card)>)
    ensures
        r@ == d@,
{
    let mut out: Vec<(PlayerId, Card)> = Vec::new();
    let mut i: usize = 0;
    while i < d.len()
        invariant
            i <= d@.len(),
            out@ == d@.subrange(0, i as int),
        decreases d@.len() - i,
    {
        out.push(d[i]);
        proof { assert(out@ =~= d@.subrange(0, i + 1)); }
        i = i + 1;
    }
    proof { assert(out@ =~= d@); }
    out
}

impl GameState {
    /// The view of the game sent to `viewer`. The only concealed cards it holds are the
    /// viewer's own; each other seat shows its card count and its declared melds.
    pub fn view_for(&self, viewer: PlayerId) -> (r: GameView)
        requires
            self.wf(),
        ensures
            r.viewer == viewer,
            r.own_cards@ == if self.has_hand(viewer) { self.hands@[self.seat(viewer)].card_seq() } else { Seq::empty() },
            r.seats@.len() == self.players@.len(),
            forall|i: int| 0 <= i < self.players@.len() ==> {
                &&& (#[trigger] r.seats@[i]).player_id == self.players@[i].id
                &&& r.seats@[i].hand_count == if i < self.hands@.len() { self.hands@[i].card_seq().len() } else { 0 }
                &&& r.seats@[i].melds@.len() == if i < self.hands@.len() { self.hands@[i].meld_seq().len() } else { 0 }
                &&& forall|j: int| 0 <= j < r.seats@[i].melds@.len() ==> (#[trigger] r.seats@[i].melds@[j]).cards@
                    == self.hands@[i].meld_seq()[j].cards@
            },
            r.discard_pile@ == self.discard_pile@,
            r.deck_size == self.deck.view_cards().len(),
            r.dangdi == self.dangdi,
            r.phase == self.phase,
            r.current_player_idx == self.current_player_idx,
    {
        let own_cards = match self.seat_of(viewer) {
            Some(s) => {
                proof { self.lemma_seat_is(viewer, s as int); }
                if s < self.hands.len() {
                    copy_cards(self.hands[s].cards())
                } else {
                    Vec::new()
                }
            },
            None => Vec::new(),
        };
        let mut seats: Vec<SeatView> = Vec::new();
        let mut i: usize = 0;
        while i < self.players.len()
            invariant
                i <= self.players@.len(),
                self.hands@.len() <= self.players@.len(),
                seats@.len() == i,
                forall|k: int| 0 <= k < i ==> {
                    &&& (#[trigger] seats@[k]).player_id == self.players@[k].id
                    &&& seats@[k].hand_count == if k < self.hands@.len() { self.hands@[k].card_seq().len() } else { 0 }
                    &&& seats@[k].melds@.len() == if k < self.hands@.len() { self.hands@[k].meld_seq().len() } else { 0 }
                    &&& forall|j: int| 0 <= j < seats@[k].melds@.len() ==> (#[trigger] seats@[k].melds@[j]).cards@
                        == self.hands@[k].meld_seq()[j].cards@
                },
            decreases self.players@.len() - i,
        {
            let (count, melds) = if i < self.hands.len() {
                (self.hands[i].len(), copy_melds(self.hands[i].melds()))
            } else {
                (0, Vec::new())
            };
            seats.push(SeatView { player_id: self.players[i].id, hand_count: count, melds });
            i = i + 1;
        }
        GameView {
            viewer,
            phase: self.phase,
            own_cards,
            seats,
            discard_pile: copy_discards(&self.discard_pile),
            deck_size: self.deck.remaining(),
            dangdi: self.dangdi,
            current_player_idx: self.current_player_idx,
        }
    }
}

} // verus!
