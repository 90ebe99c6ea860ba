use vstd::prelude::*;
use vstd::multiset::Multiset;
use crate::card::Card;
use crate::constants::{calculate_duo, duo_of, DEALER_CARD_COUNT, PLAYER_CARD_COUNT, MIN_HUXI_TO_WIN, MAX_PLAYERS, MIN_PLAYERS};
use crate::deck::{Deck, full_deck, seeded_order, lemma_four_of_each};
use crate::error::GameError;
use crate::hand::{Hand, total_huxi, count_in, sorted_cards};
use crate::meld::{Meld, MeldType, meld_valid, chi_run_shape, chi_2710_shape, same_meld};
use crate::player::{Player, PlayerId, PlayerState};

verus! {

broadcast use vstd::seq_lib::group_to_multiset_ensures;

/// Phases of a hand.
#[derive(Debug, Clone, Copy, PartialEq, Eq, Structural)]
pub enum GamePhase {
    Waiting,
    Dealing,
    Playing,
    Settling,
    Finished,
}

/// The last action applied to the game.
#[derive(Debug, Clone)]
pub enum GameAction {
    PlayCard { player: PlayerId, card_idx: usize },
    Chi { player: PlayerId, cards: Vec<usize> },
    Peng { player: PlayerId, card: Card },
    Sao { player: PlayerId, card: Card },
    Hu { player: PlayerId, is_zimo: bool },
    Pass { player: PlayerId },
}

/// Scoring of a won hand.
#[derive(Debug, Clone)]
pub struct WinResult {
    pub winner: PlayerId,
    pub huxi: u8,
    pub duo: u8,
    pub fan: u8,
    pub is_zimo: bool,
    pub is_tianhu: bool,
    pub is_dihu: bool,
}

/// All cards a hand holds: concealed cards and the cards of its melds.
pub open spec fn melds_ms(ms: Seq<Meld>) -> Multiset<Card>
    decreases ms.len(),
{
    if ms.len() == 0 {
        Multiset::empty()
    } else {
        melds_ms(ms.drop_last()).add(ms.last().cards@.to_multiset())
    }
}

pub open spec fn hand_ms(h: Hand) -> Multiset<Card> {
    h.card_seq().to_multiset().add(melds_ms(h.meld_seq()))
}

pub open spec fn hands_ms(hs: Seq<Hand>) -> Multiset<Card>
    decreases hs.len(),
{
    if hs.len() == 0 {
        Multiset::empty()
    } else {
        hands_ms(hs.drop_last()).add(hand_ms(hs.last()))
    }
}

pub open spec fn discards_ms(d: Seq<(PlayerId, Card)>) -> Multiset<Card>
    decreases d.len(),
{
    if d.len() == 0 {
        Multiset::empty()
    } else {
        discards_ms(d.drop_last()).insert(d.last().1)
    }
}

/// Replacing one hand changes the multiset of all hands by exactly that hand.
pub proof fn lemma_hands_ms_update(hs: Seq<Hand>, i: int, h: Hand)
    requires
        0 <= i < hs.len(),
    ensures
        hands_ms(hs.update(i, h)).add(hand_ms(hs[i])) =~= hands_ms(hs).add(hand_ms(h)),
    decreases hs.len(),
{
    broadcast use vstd::multiset::group_multiset_axioms;

    let u = hs.update(i, h);
    if i < hs.len() - 1 {
        lemma_hands_ms_update(hs.drop_last(), i, h);
        assert(u.drop_last() == hs.drop_last().update(i, h));
        assert(u.last() == hs.last());
        assert(hs.drop_last()[i] == hs[i]);
        assert(hands_ms(u) == hands_ms(u.drop_last()).add(hand_ms(u.last())));
        assert(hands_ms(hs) == hands_ms(hs.drop_last()).add(hand_ms(hs.last())));
        assert forall|v: Card|
            #[trigger] hands_ms(u).add(hand_ms(hs[i])).count(v) == hands_ms(hs).add(
                hand_ms(h),
            ).count(v) by {
            assert(hands_ms(hs.drop_last().update(i, h)).add(hand_ms(hs.drop_last()[i])).count(v)
                == hands_ms(hs.drop_last()).add(hand_ms(h)).count(v));
        }
    } else {
        assert(u.drop_last() == hs.drop_last());
        assert(u.last() == h);
        assert(hands_ms(u) == hands_ms(u.drop_last()).add(hand_ms(u.last())));
        assert(hands_ms(hs) == hands_ms(hs.drop_last()).add(hand_ms(hs.last())));
    }
}

/// Replacing hand `i` by one that holds `delta` more cards adds `delta` to all hands.
pub proof fn lemma_hand_gains(hs: Seq<Hand>, i: int, h: Hand, delta: Multiset<Card>)
    requires
        0 <= i < hs.len(),
        hand_ms(h) == hand_ms(hs[i]).add(delta),
    ensures
        hands_ms(hs.update(i, h)) == hands_ms(hs).add(delta),
{
    broadcast use vstd::multiset::group_multiset_axioms;

    lemma_hands_ms_update(hs, i, h);
    assert forall|v: Card| #[trigger] hands_ms(hs.update(i, h)).count(v) == hands_ms(hs).add(delta).count(v) by {
        assert(hands_ms(hs.update(i, h)).add(hand_ms(hs[i])).count(v) == hands_ms(hs).add(hand_ms(h)).count(v));
    }
    assert(hands_ms(hs.update(i, h)) =~= hands_ms(hs).add(delta));
}

/// Replacing hand `i` by one that holds `delta` fewer cards takes `delta` from all hands.
pub proof fn lemma_hand_loses(hs: Seq<Hand>, i: int, h: Hand, delta: Multiset<Card>)
    requires
        0 <= i < hs.len(),
        hand_ms(h).add(delta) == hand_ms(hs[i]),
    ensures
        hands_ms(hs.update(i, h)).add(delta) == hands_ms(hs),
{
    broadcast use vstd::multiset::group_multiset_axioms;

    lemma_hands_ms_update(hs, i, h);
    assert forall|v: Card| #[trigger] hands_ms(hs.update(i, h)).add(delta).count(v) == hands_ms(hs).count(v) by {
        assert(hands_ms(hs.update(i, h)).add(hand_ms(hs[i])).count(v) == hands_ms(hs).add(hand_ms(h)).count(v));
    }
    assert(hands_ms(hs.update(i, h)).add(delta) =~= hands_ms(hs));
}

/// The multiset of every card on the table: undrawn deck, hands, melds, discards.
pub open spec fn table_ms(g: GameState) -> Multiset<Card> {
    g.deck.view_cards().to_multiset().add(hands_ms(g.hands@)).add(discards_ms(g.discard_pile@))
}

/// Cards the seats before `i` ask for, the dealer asking for one more.
pub open spec fn asked_before(dealer: int, i: int) -> int {
    20 * i + if dealer < i { 1int } else { 0int }
}

/// Cards seat `i` is dealt: 21 for the dealer, 20 for the others, as far as the deck goes.
pub open spec fn dealt_to(dealer: int, i: int) -> int {
    let want = if i == dealer { 21int } else { 20int };
    let left = 80 - asked_before(dealer, i);
    if left <= 0 {
        0
    } else if want <= left {
        want
    } else {
        left
    }
}

/// In every well-formed state, and so in every state the game's operations reach,
/// the undrawn deck, the hands, the declared melds and the discard pile together hold
/// exactly the 80-card deck. (The dangdi is a record of a card that stays in the
/// dealer's hand, so it is not counted twice.)
pub proof fn lemma_cards_conserved(g: GameState)
    requires
        g.wf(),
    ensures
        g.deck.view_cards().to_multiset().add(hands_ms(g.hands@)).add(discards_ms(g.discard_pile@))
            == full_deck().to_multiset(),
{
}

/// The seat after `cur`, clockwise, at a table of `n`.
pub open spec fn next_seat(cur: int, n: int) -> int {
    if cur + 1 < n { cur + 1 } else { 0 }
}

/// The seat before `cur` at a table of `n`.
pub open spec fn prev_seat(cur: int, n: int) -> int {
    if cur == 0 { n - 1 } else { cur - 1 }
}

/// Concealed cards of all hands.
pub open spec fn concealed_ms(hs: Seq<Hand>) -> Multiset<Card>
    decreases hs.len(),
{
    if hs.len() == 0 {
        Multiset::empty()
    } else {
        concealed_ms(hs.drop_last()).add(hs.last().card_seq().to_multiset())
    }
}

/// Declared meld cards of all hands.
pub open spec fn declared_ms(hs: Seq<Hand>) -> Multiset<Card>
    decreases hs.len(),
{
    if hs.len() == 0 {
        Multiset::empty()
    } else {
        declared_ms(hs.drop_last()).add(melds_ms(hs.last().meld_seq()))
    }
}

proof fn lemma_hands_split(hs: Seq<Hand>, s: int, c: Card)
    requires
        0 <= s < hs.len(),
    ensures
        hands_ms(hs).count(c) == concealed_ms(hs).count(c) + declared_ms(hs).count(c),
        declared_ms(hs).count(c) >= melds_ms(hs[s].meld_seq()).count(c),
    decreases hs.len(),
{
    broadcast use vstd::multiset::group_multiset_axioms;

    assert(hands_ms(hs) == hands_ms(hs.drop_last()).add(hand_ms(hs.last())));
    assert(concealed_ms(hs) == concealed_ms(hs.drop_last()).add(hs.last().card_seq().to_multiset()));
    assert(declared_ms(hs) == declared_ms(hs.drop_last()).add(melds_ms(hs.last().meld_seq())));
    if hs.len() > 1 {
        if s < hs.len() - 1 {
            lemma_hands_split(hs.drop_last(), s, c);
            assert(hs.drop_last()[s] == hs[s]);
        } else {
            lemma_hands_split(hs.drop_last(), 0, c);
        }
    } else {
        assert(hs.drop_last().len() == 0);
        assert(hands_ms(hs.drop_last()) == Multiset::<Card>::empty());
        assert(concealed_ms(hs.drop_last()) == Multiset::<Card>::empty());
        assert(declared_ms(hs.drop_last()) == Multiset::<Card>::empty());
        assert(hs.last() == hs[s]);
    }
}

/// After a peng of `card` from a well-formed state, at most one copy of `card` is left
/// anywhere but in declared melds: in the deck, the concealed hands and the pile together.
pub proof fn lemma_peng_leaves_one(old: GameState, new: GameState, id: PlayerId, card: Card, meld: Meld)
    requires
        old.wf(),
        new.wf(),
        old.has_hand(id),
        old.peng_post(new, id, card, meld),
    ensures
        new.deck.view_cards().to_multiset().count(card) + concealed_ms(new.hands@).count(card)
            + discards_ms(new.discard_pile@).count(card) <= 1,
{
    broadcast use vstd::multiset::group_multiset_axioms;
    broadcast use vstd::seq_lib::group_to_multiset_ensures;

    let s = old.seat(id);
    lemma_four_of_each(card);
    lemma_hands_split(new.hands@, s, card);
    let ms = new.hands@[s].meld_seq();
    let cs = ms.last().cards@;
    assert(cs == seq![card, card, card]);
    assert(seq![card, card, card] == seq![card, card].push(card));
    assert(seq![card, card] == seq![card].push(card));
    assert(seq![card] == Seq::<Card>::empty().push(card));
    assert(cs.to_multiset().count(card) == 3);
    assert(melds_ms(ms) == melds_ms(ms.drop_last()).add(cs.to_multiset()));
    assert(table_ms(new).count(card) == 4);
}

/// `i` is the seat of the player with identifier `id`.
pub open spec fn is_seat(ps: Seq<Player>, id: PlayerId, i: int) -> bool {
    0 <= i < ps.len() && ps[i].id == id
}

/// Authoritative state of one hand of play.
#[derive(Debug, Clone)]
pub struct GameState {
    pub phase: GamePhase,
    pub players: Vec<Player>,
    /// `hands[i]` belongs to `players[i]`.
    pub hands: Vec<Hand>,
    pub deck: Deck,
    /// Discards in order, each with the player who discarded it.
    pub discard_pile: Vec<(PlayerId, Card)>,
    pub current_player_idx: usize,
    pub dealer_idx: usize,
    pub round: u8,
    pub last_action: Option<GameAction>,
    pub dangdi: Option<Card>,
}

impl GameState {
    /// Every declared meld has the shape of its type.
    pub open spec fn melds_valid(&self) -> bool {
        forall|i: int, j: int|
            0 <= i < self.hands@.len() && 0 <= j < self.hands@[i].meld_seq().len() ==> meld_valid(
                #[trigger] self.hands@[i].meld_seq()[j],
            )
    }

    /// Player identifiers are distinct.
    pub open spec fn ids_distinct(&self) -> bool {
        forall|i: int, j: int|
            0 <= i < self.players@.len() && 0 <= j < self.players@.len() && i != j
                ==> #[trigger] self.players@[i].id != #[trigger] self.players@[j].id
    }

    /// The game's invariant. The cards on the table are always exactly the 80-card deck,
    /// every meld passes the shape predicate of its type, and seats and hands agree.
    pub open spec fn wf(&self) -> bool {
        &&& table_ms(*self) == full_deck().to_multiset()
        &&& self.melds_valid()
        &&& self.ids_distinct()
        &&& self.players@.len() <= MAX_PLAYERS
        &&& self.hands@.len() <= self.players@.len()
        &&& (self.phase == GamePhase::Waiting ==> self.hands@.len() == 0
            && self.discard_pile@.len() == 0)
        &&& (self.phase != GamePhase::Waiting ==> self.current_player_idx < self.players@.len()
            && self.hands@.len() == self.players@.len() && self.players@.len() >= MIN_PLAYERS)
        &&& (self.claim_open() ==> self.phase != GamePhase::Waiting && self.players@[prev_seat(
            self.current_player_idx as int,
            self.players@.len() as int,
        )].id == self.discard_pile@.last().0)
    }

    /// The seated player `id` holds a hand.
    pub open spec fn has_hand(&self, id: PlayerId) -> bool {
        exists|s: int| is_seat(self.players@, id, s) && s < self.hands@.len()
    }

    /// The seat of `id` (meaningful when `id` is seated).
    pub open spec fn seat(&self, id: PlayerId) -> int {
        choose|s: int| is_seat(self.players@, id, s)
    }

    /// The last action was a discard, so the top of the pile may be claimed.
    pub open spec fn claim_open(&self) -> bool {
        &&& self.last_action matches Some(GameAction::PlayCard { .. })
        &&& self.discard_pile@.len() > 0
    }

    pub fn new() -> (r: GameState)
        ensures
            r.wf(),
            r.phase == GamePhase::Waiting,
            r.players@.len() == 0,
            r.deck.view_cards() == full_deck(),
            r.round == 1,
            r.dangdi.is_none(),
            r.dealer_idx == 0,
            r.current_player_idx == 0,
            r.hands@.len() == 0,
            r.discard_pile@.len() == 0,
    {
        let g = GameState {
            phase: GamePhase::Waiting,
            players: Vec::new(),
            hands: Vec::new(),
            deck: Deck::new(),
            discard_pile: Vec::new(),
            current_player_idx: 0,
            dealer_idx: 0,
            round: 1,
            last_action: None,
            dangdi: None,
        };
        assert(hands_ms(g.hands@) =~= Multiset::empty());
        assert(discards_ms(g.discard_pile@) =~= Multiset::empty());
        assert(table_ms(g) =~= full_deck().to_multiset());
        g
    }

    /// Seat of the player `id`, if seated.
    pub fn seat_of(&self, id: PlayerId) -> (r: Option<usize>)
        ensures
            match r {
                Some(s) => is_seat(self.players@, id, s as int),
                None => forall|s: int| !is_seat(self.players@, id, s),
            },
    {
        let mut i: usize = 0;
        while i < self.players.len()
            invariant
                i <= self.players.len(),
                forall|s: int| 0 <= s < i ==> !is_seat(self.players@, id, s),
            decreases self.players.len() - i,
        {
            if self.players[i].id == id {
                return Some(i);
            }
            i = i + 1;
        }
        None
    }

    /// The error `start_game` gives, or `None` when a hand can start.
    pub open spec fn start_error(&self) -> Option<GameError> {
        if self.phase != GamePhase::Waiting || self.players@.len() < MIN_PLAYERS
            || self.dealer_idx >= self.players@.len() {
            Some(GameError::InvalidAction)
        } else {
            None
        }
    }

    /// What holds after a hand was dealt from the state `old`.
    pub open spec fn dealt_from(&self, old: GameState) -> bool {
        &&& self.phase == GamePhase::Playing
        &&& self.current_player_idx == old.dealer_idx
        &&& self.dealer_idx == old.dealer_idx
        &&& self.players@.len() == old.players@.len()
        &&& self.hands@.len() == self.players@.len()
        &&& self.discard_pile@.len() == 0
        &&& self.deck.view_cards().len() == 80 - asked_before(
            old.dealer_idx as int,
            self.players@.len() as int,
        ) || (self.deck.view_cards().len() == 0 && 80 <= asked_before(
            old.dealer_idx as int,
            self.players@.len() as int,
        ))
        &&& forall|i: int| 0 <= i < self.players@.len() ==> {
            &&& #[trigger] self.players@[i].id == old.players@[i].id
            &&& self.players@[i].state == PlayerState::Playing
            &&& self.players@[i].position == i
            &&& sorted_cards(self.hands@[i].card_seq())
            &&& self.hands@[i].meld_seq().len() == 0
            &&& self.hands@[i].card_seq().len() == dealt_to(old.dealer_idx as int, i)
        }
        &&& self.dangdi is Some
        &&& self.hands@[old.dealer_idx as int].card_seq().contains(self.dangdi->Some_0)
    }

    /// The hand was dealt from the deck `d` (top last): what is left of the deck is the
    /// bottom of `d`, and the dangdi is the last card dealt to the dealer.
    pub open spec fn dealt_from_deck(&self, old: GameState, d: Seq<Card>) -> bool {
        let dealer = old.dealer_idx as int;
        &&& d.len() == 80
        &&& self.deck.view_cards() == d.subrange(0, self.deck.view_cards().len() as int)
        &&& self.dangdi == Some(d[80 - asked_before(dealer, dealer) - dealt_to(dealer, dealer)])
    }

    /// Deals the hand from the deck as it lies.
    #[verifier::rlimit(60)]
    fn deal(&mut self)
        requires
            old(self).wf(),
            old(self).start_error().is_none(),
        ensures
            final(self).wf(),
            final(self).dealt_from(*old(self)),
            final(self).dealt_from_deck(*old(self), old(self).deck.view_cards()),
    {
        broadcast use vstd::multiset::group_multiset_axioms;

        let ghost g0 = *self;
        proof {
            assert(hands_ms(self.hands@) =~= Multiset::empty());
            assert(discards_ms(self.discard_pile@) =~= Multiset::empty());
            assert(self.deck.view_cards().to_multiset() =~= full_deck().to_multiset());
            assert(full_deck().len() == 80);
            assert(full_deck().to_multiset().len() == 80);
            assert(self.deck.view_cards().to_multiset().len() == 80);
            assert(self.deck.view_cards().len() == 80);
        }
        self.phase = GamePhase::Dealing;
        let n = self.players.len();
        let dealer = self.dealer_idx;
        let mut idx: usize = 0;
        while idx < n
            invariant
                idx <= n,
                n == self.players@.len(),
                n == g0.players@.len(),
                2 <= n <= 4,
                dealer == g0.dealer_idx,
                dealer < n,
                self.dealer_idx == dealer,
                self.phase == GamePhase::Dealing,
                self.hands@.len() == idx,
                self.discard_pile@.len() == 0,
                self.current_player_idx == g0.current_player_idx,
                table_ms(*self) == full_deck().to_multiset(),
                self.deck.view_cards().len() == if 80 - asked_before(dealer as int, idx as int) <= 0 { 0 } else {
                    80 - asked_before(dealer as int, idx as int) },
                forall|i: int| 0 <= i < n ==> #[trigger] self.players@[i].id == g0.players@[i].id,
                forall|i: int| 0 <= i < idx ==> {
                    &&& #[trigger] self.players@[i].state == PlayerState::Playing
                    &&& self.players@[i].position == i
                },
                forall|i: int| 0 <= i < idx ==> {
                    &&& sorted_cards(#[trigger] self.hands@[i].card_seq())
                    &&& self.hands@[i].meld_seq().len() == 0
                    &&& self.hands@[i].card_seq().len() == dealt_to(dealer as int, i)
                },
                self.deck.view_cards() == g0.deck.view_cards().subrange(0, self.deck.view_cards().len() as int),
                g0.deck.view_cards().len() == 80,
                idx > dealer ==> self.dangdi == Some(g0.deck.view_cards()[80 - asked_before(dealer as int, dealer as int)
                    - dealt_to(dealer as int, dealer as int)]),
                idx > dealer ==> self.hands@[dealer as int].card_seq().contains(self.dangdi->Some_0),
            decreases n - idx,
        {
            self.players[idx].set_playing();
            self.players[idx].position = idx as u8;
            let count = if idx == dealer { DEALER_CARD_COUNT } else { PLAYER_CARD_COUNT };
            let ghost d0 = self.deck.view_cards();
            let ghost before = *self;
            let cards = self.deck.draw_n(count);
            let ghost drawn = cards@;
            if idx == dealer && cards.len() > 0 {
                self.dangdi = Some(cards[cards.len() - 1]);
            }
            let mut hand = Hand::new(cards);
            hand.sort();
            proof {
                assert(drawn.to_multiset().len() == drawn.len());
                assert(hand.card_seq().to_multiset().len() == hand.card_seq().len());
            }
            proof {
                if idx == dealer {
                    let c = drawn[drawn.len() - 1];
                    assert(drawn.to_multiset().count(c) > 0);
                    assert(hand.card_seq().to_multiset().count(c) > 0);
                }
            }
            self.hands.push(hand);
            proof {
                assert(self.hands@[idx as int] == hand);
                assert forall|i: int| 0 <= i < idx implies #[trigger] self.hands@[i] == before.hands@[i] by {}
                assert(hand.card_seq().len() == dealt_to(dealer as int, idx as int));
                assert(melds_ms(hand.meld_seq()) =~= Multiset::empty());
                assert(self.hands@.drop_last() == before.hands@);
                assert(hands_ms(self.hands@) == hands_ms(before.hands@).add(hand_ms(hand)));
                assert(table_ms(*self) =~= table_ms(before));
            }
            idx = idx + 1;
        }
        self.phase = GamePhase::Playing;
        self.current_player_idx = dealer;
        proof {
            assert forall|i: int, j: int|
                0 <= i < self.hands@.len() && 0 <= j < self.hands@[i].meld_seq().len() implies meld_valid(
                    #[trigger] self.hands@[i].meld_seq()[j]) by {
                assert(sorted_cards(self.hands@[i].card_seq()));
                assert(self.hands@[i].meld_seq().len() == 0);
            }
            assert forall|i: int, j: int|
                0 <= i < self.players@.len() && 0 <= j < self.players@.len() && i != j
                    implies #[trigger] self.players@[i].id != #[trigger] self.players@[j].id by {
                assert(g0.players@[i].id != g0.players@[j].id);
            }
            assert forall|i: int| 0 <= i < self.players@.len() implies {
                &&& #[trigger] self.players@[i].id == g0.players@[i].id
                &&& self.players@[i].state == PlayerState::Playing
                &&& self.players@[i].position == i
                &&& sorted_cards(self.hands@[i].card_seq())
                &&& self.hands@[i].meld_seq().len() == 0
                &&& self.hands@[i].card_seq().len() == dealt_to(g0.dealer_idx as int, i)
            } by {
                assert(self.players@[i].state == PlayerState::Playing);
                assert(sorted_cards(self.hands@[i].card_seq()));
            }
            assert(self.dangdi is Some);
            assert(self.hands@[g0.dealer_idx as int].card_seq().contains(self.dangdi->Some_0));
            assert(self.dealt_from(g0));
        }
    }

    /// Starts a hand: shuffles, deals 21 cards to the dealer and 20 to each other
    /// player, sorts each hand, and records the dealer's last card as dangdi.
    pub fn start_game(&mut self) -> (r: Result<(), GameError>)
        requires
            old(self).wf(),
        ensures
            final(self).wf(),
            match old(self).start_error() {
                Some(e) => r == Err::<(), GameError>(e) && *final(self) == *old(self),
                None => r is Ok && final(self).dealt_from(*old(self)) && exists|d: Seq<Card>|
                    d.to_multiset() == old(self).deck.view_cards().to_multiset()
                    && #[trigger] final(self).dealt_from_deck(*old(self), d),
            },
    {
        if self.phase != GamePhase::Waiting || self.players.len() < MIN_PLAYERS
            || self.dealer_idx >= self.players.len() {
            return Err(GameError::InvalidAction);
        }
        self.deck.shuffle();
        let ghost d = self.deck.view_cards();
        let ghost before = *self;
        self.deal();
        proof {
            assert(before.dealer_idx == old(self).dealer_idx);
            assert(before.players@ == old(self).players@);
            assert(self.dealt_from_deck(before, d));
            assert(self.dealt_from_deck(*old(self), d));
            assert(self.dealt_from(*old(self)));
        }
        Ok(())
    }

    /// As `start_game`, with the deck's order fixed by `seed`.
    pub fn start_game_seeded(&mut self, seed: u64) -> (r: Result<(), GameError>)
        requires
            old(self).wf(),
        ensures
            final(self).wf(),
            match old(self).start_error() {
                Some(e) => r == Err::<(), GameError>(e) && *final(self) == *old(self),
                None => r is Ok && final(self).dealt_from(*old(self)) && final(self).dealt_from_deck(
                    *old(self),
                    seeded_order(old(self).deck.view_cards(), seed),
                ),
            },
    {
        if self.phase != GamePhase::Waiting || self.players.len() < MIN_PLAYERS
            || self.dealer_idx >= self.players.len() {
            return Err(GameError::InvalidAction);
        }
        self.deck.shuffle_seeded(seed);
        self.deal();
        Ok(())
    }

    /// The error `play_card` gives, checked in this order, or `None` when it is accepted.
    pub open spec fn play_error(&self, id: PlayerId, card_idx: usize) -> Option<GameError> {
        let cur = self.current_player_idx as int;
        if self.phase != GamePhase::Playing {
            Some(GameError::InvalidAction)
        } else if self.players@[cur].id != id {
            Some(GameError::NotYourTurn)
        } else if cur >= self.hands@.len() {
            Some(GameError::PlayerNotFound)
        } else if card_idx >= self.hands@[cur].card_seq().len() {
            Some(GameError::CardNotInHand)
        } else {
            None
        }
    }

    pub fn add_player(&mut self, player: Player) -> (r: Result<PlayerId, GameError>)
        requires
            old(self).wf(),
        ensures
            final(self).wf(),
            old(self).players@.len() >= MAX_PLAYERS ==> r == Err::<PlayerId, GameError>(GameError::GameFull)
                && *final(self) == *old(self),
            old(self).players@.len() < MAX_PLAYERS && (old(self).phase != GamePhase::Waiting
                || exists|s: int| is_seat(old(self).players@, player.id, s))
                ==> r == Err::<PlayerId, GameError>(GameError::InvalidAction) && *final(self) == *old(self),
            old(self).players@.len() < MAX_PLAYERS && old(self).phase == GamePhase::Waiting
                && (forall|s: int| !is_seat(old(self).players@, player.id, s))
                ==> r == Ok::<PlayerId, GameError>(player.id) && final(self).players@ == old(self).players@.push(player)
                && final(self).hands@ == old(self).hands@ && final(self).phase == old(self).phase
                && final(self).dealer_idx == old(self).dealer_idx,
    {
        if self.players.len() >= MAX_PLAYERS {
            return Err(GameError::GameFull);
        }
        if self.phase != GamePhase::Waiting || self.seat_of(player.id).is_some() {
            return Err(GameError::InvalidAction);
        }
        let id = player.id;
        let ghost g0 = *self;
        self.players.push(player);
        proof {
            assert(table_ms(*self) == table_ms(g0));
            assert forall|i: int, j: int|
                0 <= i < self.players@.len() && 0 <= j < self.players@.len() && i != j
                    implies #[trigger] self.players@[i].id != #[trigger] self.players@[j].id by {
                if i == g0.players@.len() {
                    assert(!is_seat(g0.players@, id, j));
                } else if j == g0.players@.len() {
                    assert(!is_seat(g0.players@, id, i));
                }
            }
        }
        Ok(id)
    }

    pub fn get_current_player(&self) -> (r: Option<&Player>)
        ensures
            self.current_player_idx < self.players@.len() ==> r == Some(&self.players@[self.current_player_idx as int]),
            self.current_player_idx >= self.players@.len() ==> r.is_none(),
    {
        if self.current_player_idx < self.players.len() {
            Some(&self.players[self.current_player_idx])
        } else {
            None
        }
    }

    pub fn get_current_player_id(&self) -> (r: Option<PlayerId>)
        ensures
            self.current_player_idx < self.players@.len() ==> r == Some(self.players@[self.current_player_idx as int].id),
            self.current_player_idx >= self.players@.len() ==> r.is_none(),
    {
        if self.current_player_idx < self.players.len() {
            Some(self.players[self.current_player_idx].id)
        } else {
            None
        }
    }

    /// Draws the top card into the hand at `seat`, if the deck is not empty.
    fn draw_into(&mut self, seat: usize) -> (r: Option<Card>)
        requires
            old(self).wf(),
            seat < old(self).hands@.len(),
        ensures
            final(self).wf(),
            final(self).players == old(self).players,
            final(self).discard_pile == old(self).discard_pile,
            final(self).phase == old(self).phase,
            final(self).current_player_idx == old(self).current_player_idx,
            final(self).dealer_idx == old(self).dealer_idx,
            final(self).last_action == old(self).last_action,
            final(self).dangdi == old(self).dangdi,
            final(self).round == old(self).round,
            final(self).hands@.len() == old(self).hands@.len(),
            forall|i: int| 0 <= i < old(self).hands@.len() && i != seat ==> final(self).hands@[i] == old(self).hands@[i],
            final(self).hands@[seat as int].meld_seq() == old(self).hands@[seat as int].meld_seq(),
            old(self).deck.view_cards().len() == 0 ==> r.is_none() && *final(self) == *old(self),
            old(self).deck.view_cards().len() > 0 ==> r == Some(old(self).deck.view_cards().last())
                && final(self).deck.view_cards() == old(self).deck.view_cards().drop_last()
                && final(self).hands@[seat as int].card_seq().to_multiset()
                == old(self).hands@[seat as int].card_seq().to_multiset().insert(r.unwrap()),
    {
        broadcast use vstd::multiset::group_multiset_axioms;

        if self.deck.is_empty() {
            return None;
        }
        let ghost g0 = *self;
        match self.deck.draw() {
            Some(card) => {
                self.hands[seat].add_card(card);
                proof {
                    let h1 = self.hands@[seat as int];
                    assert(hand_ms(h1) =~= hand_ms(g0.hands@[seat as int]).add(Multiset::singleton(card)));
                    lemma_hand_gains(g0.hands@, seat as int, h1, Multiset::singleton(card));
                    assert(self.hands@ == g0.hands@.update(seat as int, h1));
                    let d0 = g0.deck.view_cards();
                    assert(d0 == d0.drop_last().push(card));
                    assert(table_ms(*self) =~= table_ms(g0));
                    assert forall|i: int, j: int|
                        0 <= i < self.hands@.len() && 0 <= j < self.hands@[i].meld_seq().len() implies meld_valid(
                            #[trigger] self.hands@[i].meld_seq()[j]) by {
                        if i == seat {
                            assert(self.hands@[i].meld_seq() == g0.hands@[i].meld_seq());
                        }
                    }
                }
                Some(card)
            },
            None => None,
        }
    }

    /// Draws the top card for the player `player_id`: `Ok(None)` when the deck is empty.
    pub fn draw_card(&mut self, player_id: PlayerId) -> (r: Result<Option<Card>, GameError>)
        requires
            old(self).wf(),
        ensures
            final(self).wf(),
            old(self).deck.view_cards().len() == 0 ==> r == Ok::<Option<Card>, GameError>(None) && *final(self) == *old(self),
            old(self).deck.view_cards().len() > 0 && !old(self).has_hand(player_id)
                ==> r == Err::<Option<Card>, GameError>(GameError::PlayerNotFound) && *final(self) == *old(self),
            old(self).deck.view_cards().len() > 0 && old(self).has_hand(player_id)
                ==> r == Ok::<Option<Card>, GameError>(Some(old(self).deck.view_cards().last()))
                && final(self).deck.view_cards() == old(self).deck.view_cards().drop_last()
                && final(self).hands@[old(self).seat(player_id)].card_seq().to_multiset()
                == old(self).hands@[old(self).seat(player_id)].card_seq().to_multiset().insert(
                old(self).deck.view_cards().last()),
    {
        if self.deck.is_empty() {
            return Ok(None);
        }
        match self.seat_of(player_id) {
            Some(s) => {
                if s < self.hands.len() {
                    proof { self.lemma_seat_unique(player_id, s as int); }
                    Ok(self.draw_into(s))
                } else {
                    proof { self.lemma_seat_unique_all(player_id, s as int); }
                    Err(GameError::PlayerNotFound)
                }
            },
            None => Err(GameError::PlayerNotFound),
        }
    }

    proof fn lemma_seat_unique(&self, id: PlayerId, s: int)
        requires
            self.ids_distinct(),
            is_seat(self.players@, id, s),
        ensures
            self.seat(id) == s,
    {
        let c = self.seat(id);
        assert(is_seat(self.players@, id, c));
    }

    /// With distinct identifiers, `s` is the seat of `id` exactly when `id` sits there,
    /// and `id` holds a hand exactly when that seat has one.
    pub proof fn lemma_seat_is(&self, id: PlayerId, s: int)
        requires
            self.ids_distinct(),
            is_seat(self.players@, id, s),
        ensures
            self.seat(id) == s,
            self.has_hand(id) == (s < self.hands@.len()),
    {
        self.lemma_seat_unique(id, s);
    }

    proof fn lemma_seat_unique_all(&self, id: PlayerId, s: int)
        requires
            self.ids_distinct(),
            is_seat(self.players@, id, s),
        ensures
            forall|t: int| is_seat(self.players@, id, t) ==> t == s,
    {
    }

    /// What an accepted discard by `id` of the card at `card_idx` makes of this state:
    /// the card goes from the discarder's hand to the pile, the turn passes to the next
    /// seat, and that player draws the top card (an empty deck ends the hand).
    pub open spec fn play_post(&self, new: GameState, id: PlayerId, card_idx: usize) -> bool {
        let cur = self.current_player_idx as int;
        let n = self.players@.len() as int;
        let next = next_seat(cur, n);
        let deck = self.deck.view_cards();
        &&& new.hands@.len() == self.hands@.len()
        &&& new.hands@[cur].card_seq() == self.hands@[cur].card_seq().remove(card_idx as int)
        &&& new.hands@[cur].meld_seq() == self.hands@[cur].meld_seq()
        &&& new.hands@[next].meld_seq() == self.hands@[next].meld_seq()
        &&& forall|i: int| 0 <= i < n && i != cur && i != next ==> #[trigger] new.hands@[i]
            == self.hands@[i]
        &&& new.discard_pile@ == self.discard_pile@.push((id, self.hands@[cur].card_seq()[card_idx as int]))
        &&& new.players@ == self.players@
        &&& new.current_player_idx == next
        &&& new.last_action == Some(GameAction::PlayCard { player: id, card_idx })
        &&& (deck.len() > 0 ==> new.deck.view_cards() == deck.drop_last()
            && new.phase == GamePhase::Playing
            && new.hands@[next].card_seq().to_multiset()
            == self.hands@[next].card_seq().to_multiset().insert(deck.last()))
        &&& (deck.len() == 0 ==> new.deck.view_cards() == deck
            && new.phase == GamePhase::Settling
            && new.hands@[next].card_seq() == self.hands@[next].card_seq())
    }

    /// The player on turn discards the card at `card_idx` and the turn passes to the
    /// next seat, whose player draws from the deck. With the deck exhausted the hand goes
    /// to settling.
    pub fn play_card(&mut self, player_id: PlayerId, card_idx: usize) -> (r: Result<Card, GameError>)
        requires
            old(self).wf(),
        ensures
            final(self).wf(),
            match old(self).play_error(player_id, card_idx) {
                Some(e) => r == Err::<Card, GameError>(e) && *final(self) == *old(self),
                None => r == Ok::<Card, GameError>(old(self).hands@[old(self).current_player_idx as int].card_seq()[card_idx as int])
                    && old(self).play_post(*final(self), player_id, card_idx),
            },
            // A discard is accepted only from the player on turn, for a card in hand.
            r.is_ok() ==> old(self).players@[old(self).current_player_idx as int].id == player_id
                && card_idx < old(self).hands@[old(self).current_player_idx as int].card_seq().len(),
    {
        broadcast use vstd::multiset::group_multiset_axioms;

        if self.phase != GamePhase::Playing {
            return Err(GameError::InvalidAction);
        }
        let cur = self.current_player_idx;
        if self.players[cur].id != player_id {
            return Err(GameError::NotYourTurn);
        }
        if cur >= self.hands.len() {
            return Err(GameError::PlayerNotFound);
        }
        if card_idx >= self.hands[cur].len() {
            return Err(GameError::CardNotInHand);
        }
        let ghost g0 = *self;
        let removed = self.hands[cur].remove_card(card_idx);
        let card = match removed {
            Some(c) => c,
            None => { return Err(GameError::CardNotInHand); },
        };
        self.discard_pile.push((player_id, card));
        let n = self.players.len();
        let next = if cur + 1 < n { cur + 1 } else { 0 };
        self.current_player_idx = next;
        self.last_action = Some(GameAction::PlayCard { player: player_id, card_idx });
        proof {
            let h0 = g0.hands@[cur as int];
            let h1 = self.hands@[cur as int];
            assert(h0.card_seq().to_multiset() == h1.card_seq().to_multiset().insert(card));
            assert(hand_ms(h1).add(Multiset::singleton(card)) =~= hand_ms(h0));
            lemma_hand_loses(g0.hands@, cur as int, h1, Multiset::singleton(card));
            assert(self.hands@ == g0.hands@.update(cur as int, h1));
            assert(self.discard_pile@.drop_last() == g0.discard_pile@);
            assert(table_ms(*self) =~= table_ms(g0));
            assert forall|i: int, j: int|
                0 <= i < self.hands@.len() && 0 <= j < self.hands@[i].meld_seq().len() implies meld_valid(
                    #[trigger] self.hands@[i].meld_seq()[j]) by {
                if i == cur {
                    assert(self.hands@[i].meld_seq() == g0.hands@[i].meld_seq());
                }
            }
            assert(self.claim_open());
            assert(prev_seat(next as int, n as int) == cur);
        }
        let ghost g1 = *self;
        let drawn = self.draw_into(next);
        if drawn.is_none() {
            self.phase = GamePhase::Settling;
        }
        proof {
            assert forall|i: int| 0 <= i < n && i != cur && i != next implies #[trigger] self.hands@[i]
                == g0.hands@[i] by {
                assert(g1.hands@[i] == g0.hands@[i]);
            }
            assert(g1.hands@[next as int] == g0.hands@[next as int]);
        }
        Ok(card)
    }

    /// The cards of the chi that `idx` names: the claimed discard, then the hand cards
    /// at `idx[1]` and `idx[0]`.
    pub open spec fn chi_cards(&self, id: PlayerId, idx: Seq<usize>) -> Seq<Card> {
        let h = self.hands@[self.seat(id)].card_seq();
        seq![self.discard_pile@.last().1, h[idx[1] as int], h[idx[0] as int]]
    }

    /// The error `chi` gives, checked in this order, or `None` when it is accepted.
    pub open spec fn chi_error(&self, id: PlayerId, idx: Seq<usize>) -> Option<GameError> {
        if idx.len() != 2 {
            Some(GameError::InvalidMeld)
        } else if self.phase != GamePhase::Playing {
            Some(GameError::InvalidAction)
        } else if !self.has_hand(id) {
            Some(GameError::PlayerNotFound)
        } else if self.seat(id) != self.current_player_idx {
            Some(GameError::NotYourTurn)
        } else if !self.claim_open() || self.discard_pile@.last().0 == id {
            Some(GameError::InvalidAction)
        } else if idx[0] >= self.hands@[self.seat(id)].card_seq().len() || idx[1]
            >= self.hands@[self.seat(id)].card_seq().len() {
            Some(GameError::CardNotInHand)
        } else if idx[0] == idx[1] {
            Some(GameError::InvalidMeld)
        } else if !chi_run_shape(self.chi_cards(id, idx)) && !chi_2710_shape(self.chi_cards(id, idx)) {
            Some(GameError::InvalidMeld)
        } else {
            None
        }
    }

    /// What an accepted chi by `id` with the hand cards at `idx` makes of this state,
    /// `meld` being the meld formed.
    pub open spec fn chi_post(&self, new: GameState, id: PlayerId, idx: Seq<usize>, meld: Meld) -> bool {
        let s = self.seat(id);
        let i = idx[0] as int;
        let j = idx[1] as int;
        let h = self.hands@[s].card_seq();
        &&& meld.meld_type == MeldType::Chi
        &&& meld.cards@ == self.chi_cards(id, idx)
        &&& meld.from_opponent
        &&& meld_valid(meld)
        &&& new.hands@[s].meld_seq().drop_last() == self.hands@[s].meld_seq()
        &&& same_meld(new.hands@[s].meld_seq().last(), meld)
        &&& new.hands@.len() == self.hands@.len()
        &&& forall|i: int| 0 <= i < self.hands@.len() && i != s ==> #[trigger] new.hands@[i]
            == self.hands@[i]
        &&& self.players@[prev_seat(s, self.players@.len() as int)].id
            == self.discard_pile@.last().0
        &&& new.hands@[s].meld_seq().len() == self.hands@[s].meld_seq().len() + 1
        &&& new.current_player_idx == s
        &&& new.hands@[s].card_seq() == (if i < j { h.remove(j).remove(i) } else { h.remove(i).remove(j) })
        &&& new.discard_pile@ == self.discard_pile@.drop_last()
        &&& new.current_player_idx == self.current_player_idx
        &&& new.players@ == self.players@
        &&& new.deck == self.deck
    }

    /// The player next in turn claims the last discard with two hand cards, forming a
    /// run or 2-7-10 of one suit; the meld is declared and the discard leaves the pile.
    #[verifier::rlimit(60)]
    pub fn chi(&mut self, player_id: PlayerId, card_indices: Vec<usize>) -> (r: Result<Meld, GameError>)
        requires
            old(self).wf(),
        ensures
            final(self).wf(),
            match old(self).chi_error(player_id, card_indices@) {
                Some(e) => r is Err && r->Err_0 == e && *final(self) == *old(self),
                None => r is Ok && old(self).chi_post(*final(self), player_id, card_indices@, r->Ok_0),
            },
    {
        broadcast use vstd::multiset::group_multiset_axioms;

        if card_indices.len() != 2 {
            return Err(GameError::InvalidMeld);
        }
        if self.phase != GamePhase::Playing {
            return Err(GameError::InvalidAction);
        }
        let s = match self.seat_of(player_id) {
            Some(s) => s,
            None => { return Err(GameError::PlayerNotFound); },
        };
        proof { self.lemma_seat_unique(player_id, s as int); }
        if s >= self.hands.len() {
            proof { self.lemma_seat_unique_all(player_id, s as int); }
            return Err(GameError::PlayerNotFound);
        }
        if s != self.current_player_idx {
            return Err(GameError::NotYourTurn);
        }
        let np = self.discard_pile.len();
        let open = match &self.last_action {
            Some(GameAction::PlayCard { .. }) => np > 0,
            _ => false,
        };
        if !open || self.discard_pile[np - 1].0 == player_id {
            return Err(GameError::InvalidAction);
        }
        let i = card_indices[0];
        let j = card_indices[1];
        let hl = self.hands[s].len();
        if i >= hl || j >= hl {
            return Err(GameError::CardNotInHand);
        }
        if i == j {
            return Err(GameError::InvalidMeld);
        }
        let d = self.discard_pile[np - 1].1;
        let a = self.hands[s].cards()[j];
        let b = self.hands[s].cards()[i];
        let shape = vec![d, a, b];
        if !Meld::is_valid_chi(shape.as_slice()) && !Meld::is_valid_2710(shape.as_slice()) {
            return Err(GameError::InvalidMeld);
        }
        let ghost g0 = *self;
        let ghost h0 = self.hands@[s as int];
        let (hi, lo) = if i < j { (j, i) } else { (i, j) };
        self.hands[s].remove_card(hi);
        self.hands[s].remove_card(lo);
        let ghost h1 = self.hands@[s as int];
        self.hands[s].add_meld(Meld::new(MeldType::Chi, vec![d, a, b], true));
        let popped = self.discard_pile.pop();
        self.last_action = Some(GameAction::Chi { player: player_id, cards: card_indices });
        proof {
            let h2 = self.hands@[s as int];
            let m = h2.meld_seq().last();
            assert(m.cards@ == seq![d, a, b]);
            let c0 = h0.card_seq();
            assert(c0.remove(hi as int)[lo as int] == c0[lo as int]);
            assert(h1.card_seq().to_multiset() == c0.to_multiset().remove(c0[hi as int]).remove(c0[lo as int]));
            assert(h2.meld_seq().drop_last() == h0.meld_seq());
            assert(melds_ms(h2.meld_seq()) == melds_ms(h0.meld_seq()).add(m.cards@.to_multiset()));
            assert(seq![d, a, b] == seq![d, a].push(b));
            assert(seq![d, a] == seq![d].push(a));
            assert(seq![d] == Seq::<Card>::empty().push(d));
            assert(seq![d, a, b].to_multiset() =~= Multiset::singleton(d).insert(a).insert(b));
            assert(c0.to_multiset().count(a) > 0) by { assert(c0.contains(a)) by { assert(c0[j as int] == a); } }
            assert(hand_ms(h2) =~= hand_ms(h0).add(Multiset::singleton(d)));
            lemma_hand_gains(g0.hands@, s as int, h2, Multiset::singleton(d));
            assert(self.hands@ == g0.hands@.update(s as int, h2));
            assert(g0.discard_pile@ == self.discard_pile@.push((g0.discard_pile@.last().0, d)));
            assert(self.discard_pile@.push((g0.discard_pile@.last().0, d)).drop_last() == self.discard_pile@);
            assert(table_ms(*self) =~= table_ms(g0));
            assert forall|x: int, y: int|
                0 <= x < self.hands@.len() && 0 <= y < self.hands@[x].meld_seq().len() implies meld_valid(
                    #[trigger] self.hands@[x].meld_seq()[y]) by {
                if x == s {
                    if y < h0.meld_seq().len() {
                        assert(self.hands@[x].meld_seq()[y] == g0.hands@[x].meld_seq()[y]);
                    }
                }
            }
        }
        Ok(Meld::new(MeldType::Chi, vec![d, a, b], true))
    }

    /// The error `peng` gives, checked in this order, or `None` when it is accepted.
    pub open spec fn peng_error(&self, id: PlayerId, card: Card) -> Option<GameError> {
        if self.phase != GamePhase::Playing {
            Some(GameError::InvalidAction)
        } else if !self.has_hand(id) {
            Some(GameError::PlayerNotFound)
        } else if count_in(self.hands@[self.seat(id)].card_seq(), card) < 2 {
            Some(GameError::InvalidMeld)
        } else if !self.claim_open() || self.discard_pile@.last().0 == id {
            Some(GameError::InvalidAction)
        } else if self.discard_pile@.last().1 != card {
            Some(GameError::InvalidMeld)
        } else {
            None
        }
    }

    /// What an accepted peng of `card` by `id` makes of this state, `meld` being the
    /// meld formed.
    pub open spec fn peng_post(&self, new: GameState, id: PlayerId, card: Card, meld: Meld) -> bool {
        let s = self.seat(id);
        &&& meld.meld_type == MeldType::Peng
        &&& meld.cards@ == seq![card, card, card]
        &&& meld.from_opponent
        &&& meld_valid(meld)
        &&& new.hands@[s].meld_seq().drop_last() == self.hands@[s].meld_seq()
        &&& same_meld(new.hands@[s].meld_seq().last(), meld)
        &&& new.hands@.len() == self.hands@.len()
        &&& forall|i: int| 0 <= i < self.hands@.len() && i != s ==> #[trigger] new.hands@[i]
            == self.hands@[i]
        &&& new.hands@[s].meld_seq().len() == self.hands@[s].meld_seq().len() + 1
        &&& new.hands@[s].card_seq().to_multiset()
            == self.hands@[s].card_seq().to_multiset().remove(card).remove(card)
        &&& new.discard_pile@ == self.discard_pile@.drop_last()
        &&& new.current_player_idx == s
        &&& new.players@ == self.players@
        &&& new.deck == self.deck
    }

    /// A player holding two copies of the last discard claims it as a triplet; the meld
    /// is declared, the discard leaves the pile and the turn passes to the claimer.
    #[verifier::rlimit(60)]
    pub fn peng(&mut self, player_id: PlayerId, card: Card) -> (r: Result<Meld, GameError>)
        requires
            old(self).wf(),
        ensures
            final(self).wf(),
            match old(self).peng_error(player_id, card) {
                Some(e) => r is Err && r->Err_0 == e && *final(self) == *old(self),
                None => r is Ok && old(self).peng_post(*final(self), player_id, card, r->Ok_0),
            },
    {
        broadcast use vstd::multiset::group_multiset_axioms;

        if self.phase != GamePhase::Playing {
            return Err(GameError::InvalidAction);
        }
        let s = match self.seat_of(player_id) {
            Some(s) => s,
            None => { return Err(GameError::PlayerNotFound); },
        };
        proof { self.lemma_seat_unique(player_id, s as int); }
        if s >= self.hands.len() {
            proof { self.lemma_seat_unique_all(player_id, s as int); }
            return Err(GameError::PlayerNotFound);
        }
        if !self.hands[s].can_peng(&card) {
            return Err(GameError::InvalidMeld);
        }
        let np = self.discard_pile.len();
        let open = match &self.last_action {
            Some(GameAction::PlayCard { .. }) => np > 0,
            _ => false,
        };
        if !open || self.discard_pile[np - 1].0 == player_id {
            return Err(GameError::InvalidAction);
        }
        if self.discard_pile[np - 1].1 != card {
            return Err(GameError::InvalidMeld);
        }
        let ghost g0 = *self;
        let ghost h0 = self.hands@[s as int];
        let mut k: usize = 0;
        while k < 2
            invariant
                k <= 2,
                s < self.hands@.len(),
                self.hands@.len() == g0.hands@.len(),
                forall|x: int| 0 <= x < self.hands@.len() && x != s ==> self.hands@[x] == g0.hands@[x],
                self.hands@[s as int].meld_seq() == h0.meld_seq(),
                count_in(h0.card_seq(), card) >= 2,
                count_in(self.hands@[s as int].card_seq(), card) == count_in(h0.card_seq(), card) - k,
                self.hands@[s as int].card_seq().to_multiset() == if k == 0 { h0.card_seq().to_multiset() }
                    else if k == 1 { h0.card_seq().to_multiset().remove(card) }
                    else { h0.card_seq().to_multiset().remove(card).remove(card) },
                self.players == g0.players,
                self.deck == g0.deck,
                self.discard_pile == g0.discard_pile,
                self.phase == g0.phase,
                self.last_action == g0.last_action,
                self.dangdi == g0.dangdi,
                self.current_player_idx == g0.current_player_idx,
                self.dealer_idx == g0.dealer_idx,
                self.round == g0.round,
            decreases 2 - k,
        {
            match self.hands[s].find_card(&card) {
                Some(idx) => {
                    self.hands[s].remove_card(idx);
                },
                None => {
                    proof {
                        let cs = self.hands@[s as int].card_seq();
                        assert(!cs.contains(card));
                        assert(cs.to_multiset().count(card) == 0);
                    }
                },
            }
            k = k + 1;
        }
        let ghost h1 = self.hands@[s as int];
        self.hands[s].add_meld(Meld::new(MeldType::Peng, vec![card, card, card], true));
        let popped = self.discard_pile.pop();
        self.current_player_idx = s;
        self.last_action = Some(GameAction::Peng { player: player_id, card });
        proof {
            let h2 = self.hands@[s as int];
            let m = h2.meld_seq().last();
            assert(m.cards@ == seq![card, card, card]);
            assert(h2.meld_seq().drop_last() == h0.meld_seq());
            assert(melds_ms(h2.meld_seq()) == melds_ms(h0.meld_seq()).add(m.cards@.to_multiset()));
            assert(seq![card, card, card] == seq![card, card].push(card));
            assert(seq![card, card] == seq![card].push(card));
            assert(seq![card] == Seq::<Card>::empty().push(card));
            assert(seq![card, card, card].to_multiset() =~= Multiset::singleton(card).insert(card).insert(card));
            assert(hand_ms(h2) =~= hand_ms(h0).add(Multiset::singleton(card)));
            lemma_hand_gains(g0.hands@, s as int, h2, Multiset::singleton(card));
            assert(self.hands@ =~= g0.hands@.update(s as int, h2));
            assert(g0.discard_pile@ == self.discard_pile@.push((g0.discard_pile@.last().0, card)));
            assert(self.discard_pile@.push((g0.discard_pile@.last().0, card)).drop_last() == self.discard_pile@);
            assert(table_ms(*self) =~= table_ms(g0));
            assert forall|x: int, y: int|
                0 <= x < self.hands@.len() && 0 <= y < self.hands@[x].meld_seq().len() implies meld_valid(
                    #[trigger] self.hands@[x].meld_seq()[y]) by {
                if x == s {
                    if y < h0.meld_seq().len() {
                        assert(self.hands@[x].meld_seq()[y] == g0.hands@[x].meld_seq()[y]);
                    }
                } else {
                    assert(self.hands@[x] == g0.hands@[x]);
                }
            }
        }
        Ok(Meld::new(MeldType::Peng, vec![card, card, card], true))
    }

    /// The error `declare_hu` gives, or `None` when the hu stands.
    pub open spec fn hu_error(&self, id: PlayerId) -> Option<GameError> {
        if self.phase != GamePhase::Playing {
            Some(GameError::InvalidAction)
        } else if !self.has_hand(id) {
            Some(GameError::PlayerNotFound)
        } else if total_huxi(self.hands@[self.seat(id)].meld_seq()) < MIN_HUXI_TO_WIN {
            Some(GameError::InvalidAction)
        } else {
            None
        }
    }

    /// Declares hu for `player_id` once its melds reach the winning huxi. The win is
    /// zimo unless it takes another player's open discard; tianhu when no card has been
    /// discarded yet and the winner deals; dihu on the first discard, taken by a player
    /// other than the dealer. The hand goes to settling.
    pub fn declare_hu(&mut self, player_id: PlayerId) -> (r: Result<WinResult, GameError>)
        requires
            old(self).wf(),
        ensures
            final(self).wf(),
            match old(self).hu_error(player_id) {
                Some(e) => r is Err && r->Err_0 == e && *final(self) == *old(self),
                None => {
                    let s = old(self).seat(player_id);
                    let huxi = total_huxi(old(self).hands@[s].meld_seq());
                    let on_discard = old(self).claim_open() && old(self).discard_pile@.last().0 != player_id;
                    let w = r->Ok_0;
                    &&& r is Ok
                    &&& w.winner == player_id
                    &&& w.huxi == huxi
                    &&& w.duo == duo_of(huxi as int)
                    &&& w.is_zimo == !on_discard
                    &&& w.is_tianhu == (old(self).discard_pile@.len() == 0 && s == old(self).dealer_idx)
                    &&& w.is_dihu == (old(self).discard_pile@.len() == 1 && on_discard && s != old(self).dealer_idx)
                    &&& w.fan == w.duo + (if w.is_zimo { 1int } else { 0int }) + (if w.is_tianhu { 2int } else { 0int })
                        + (if w.is_dihu { 2int } else { 0int })
                    &&& final(self).phase == GamePhase::Settling
                    &&& final(self).hands == old(self).hands
                    &&& final(self).deck == old(self).deck
                    &&& final(self).discard_pile == old(self).discard_pile
                },
            },
    {
        if self.phase != GamePhase::Playing {
            return Err(GameError::InvalidAction);
        }
        let s = match self.seat_of(player_id) {
            Some(s) => s,
            None => { return Err(GameError::PlayerNotFound); },
        };
        proof { self.lemma_seat_is(player_id, s as int); }
        if s >= self.hands.len() {
            return Err(GameError::PlayerNotFound);
        }
        let huxi = self.hands[s].total_huxi();
        if huxi < MIN_HUXI_TO_WIN {
            return Err(GameError::InvalidAction);
        }
        let np = self.discard_pile.len();
        let open = match &self.last_action {
            Some(GameAction::PlayCard { .. }) => np > 0,
            _ => false,
        };
        let on_discard = open && self.discard_pile[np - 1].0 != player_id;
        let is_zimo = !on_discard;
        let is_tianhu = np == 0 && s == self.dealer_idx;
        let is_dihu = np == 1 && on_discard && s != self.dealer_idx;
        let duo = calculate_duo(huxi);
        let mut fan = duo;
        if is_zimo {
            fan = fan + 1;
        }
        if is_tianhu {
            fan = fan + 2;
        }
        if is_dihu {
            fan = fan + 2;
        }
        self.phase = GamePhase::Settling;
        self.last_action = Some(GameAction::Hu { player: player_id, is_zimo });
        Ok(WinResult { winner: player_id, huxi, duo, fan, is_zimo, is_tianhu, is_dihu })
    }

    /// Whether the seated player `id` holds a hand.
    pub fn has_hand_of(&self, id: PlayerId) -> (r: bool)
        requires
            self.ids_distinct(),
        ensures
            r == self.has_hand(id),
    {
        match self.seat_of(id) {
            Some(s) => {
                proof { self.lemma_seat_unique_all(id, s as int); }
                s < self.hands.len()
            },
            None => false,
        }
    }

    /// Puts the hand of `id` in canonical order; `false` when `id` holds no hand.
    pub fn sort_hand(&mut self, id: PlayerId) -> (r: bool)
        requires
            old(self).wf(),
        ensures
            final(self).wf(),
            r == old(self).has_hand(id),
            final(self).players == old(self).players,
            final(self).deck == old(self).deck,
            final(self).discard_pile == old(self).discard_pile,
            final(self).phase == old(self).phase,
            final(self).current_player_idx == old(self).current_player_idx,
            final(self).last_action == old(self).last_action,
            final(self).hands@.len() == old(self).hands@.len(),
            forall|i: int| 0 <= i < old(self).hands@.len() ==> (#[trigger] final(self).hands@[i]).card_seq().to_multiset()
                == old(self).hands@[i].card_seq().to_multiset() && final(self).hands@[i].meld_seq() == old(self).hands@[i].meld_seq(),
            r ==> sorted_cards(final(self).hands@[old(self).seat(id)].card_seq()),
    {
        broadcast use vstd::multiset::group_multiset_axioms;

        match self.seat_of(id) {
            Some(s) => {
                proof { self.lemma_seat_unique(id, s as int); }
                if s < self.hands.len() {
                    let ghost g0 = *self;
                    self.hands[s].sort();
                    proof {
                        let h1 = self.hands@[s as int];
                        assert(hand_ms(h1) =~= hand_ms(g0.hands@[s as int]).add(Multiset::empty()));
                        lemma_hand_gains(g0.hands@, s as int, h1, Multiset::empty());
                        assert(self.hands@ == g0.hands@.update(s as int, h1));
                        assert(table_ms(*self) =~= table_ms(g0));
                        assert forall|x: int, y: int|
                            0 <= x < self.hands@.len() && 0 <= y < self.hands@[x].meld_seq().len() implies meld_valid(
                                #[trigger] self.hands@[x].meld_seq()[y]) by {
                            if x == s {
                                assert(self.hands@[x].meld_seq() == g0.hands@[x].meld_seq());
                            }
                        }
                    }
                    true
                } else {
                    proof { self.lemma_seat_unique_all(id, s as int); }
                    false
                }
            },
            None => false,
        }
    }

    /// Total huxi of the melds of `player_id`.
    pub fn calculate_hand_huxi(&self, player_id: PlayerId) -> (r: Result<u8, GameError>)
        requires
            self.ids_distinct(),
        ensures
            !self.has_hand(player_id) ==> r == Err::<u8, GameError>(GameError::PlayerNotFound),
            self.has_hand(player_id) ==> r == Ok::<u8, GameError>(
                total_huxi(self.hands@[self.seat(player_id)].meld_seq()) as u8),
    {
        match self.seat_of(player_id) {
            Some(s) => {
                if s < self.hands.len() {
                    proof { self.lemma_seat_unique(player_id, s as int); }
                    Ok(self.hands[s].total_huxi())
                } else {
                    proof { self.lemma_seat_unique_all(player_id, s as int); }
                    Err(GameError::PlayerNotFound)
                }
            },
            None => Err(GameError::PlayerNotFound),
        }
    }

    /// Whether `player_id` has reached the winning huxi.
    pub fn can_hu(&self, player_id: PlayerId) -> (r: Result<bool, GameError>)
        requires
            self.ids_distinct(),
        ensures
            !self.has_hand(player_id) ==> r == Err::<bool, GameError>(GameError::PlayerNotFound),
            self.has_hand(player_id) ==> r == Ok::<bool, GameError>(
                total_huxi(self.hands@[self.seat(player_id)].meld_seq()) >= MIN_HUXI_TO_WIN),
    {
        let huxi = self.calculate_hand_huxi(player_id)?;
        Ok(huxi >= MIN_HUXI_TO_WIN)
    }
} // impl GameState

} // verus!
