use guilin_paizi::card::{Card, CardType, CardValue, Suit};
use guilin_paizi::constants::calculate_duo;
use guilin_paizi::deck::Deck;
use guilin_paizi::error::GameError;
use guilin_paizi::game::{GameAction, GamePhase, GameState};
use guilin_paizi::hand::Hand;
use guilin_paizi::meld::{Meld, MeldType};
use guilin_paizi::player::{Player, PlayerId, PlayerState};

fn c(suit: Suit, v: u8) -> Card {
    Card::new(suit, CardValue::from_u8(v).unwrap())
}

#[test]
fn test_card_creation() {
    let card = Card::new(Suit::Small, CardValue::One);
    assert_eq!(card.suit, Suit::Small);
    assert_eq!(card.value, CardValue::One);
    assert!(!card.is_red());
}

#[test]
fn test_red_cards() {
    let red_small = Card::new(Suit::Small, CardValue::Two);
    let red_big = Card::new(Suit::Big, CardValue::Seven);
    let red_ten = Card::new(Suit::Small, CardValue::Ten);

    assert!(red_small.is_red());
    assert!(red_big.is_red());
    assert!(red_ten.is_red());
}

#[test]
fn test_card_display() {
    let card1 = Card::new(Suit::Small, CardValue::One);
    let card2 = Card::new(Suit::Big, CardValue::One);
    assert_eq!(card1.to_string(), "一");
    assert_eq!(card2.to_string(), "壹");
}

#[test]
fn test_calculate_duo() {
    assert_eq!(calculate_duo(9), 0);
    assert_eq!(calculate_duo(10), 1);
    assert_eq!(calculate_duo(12), 1);
    assert_eq!(calculate_duo(13), 2);
    assert_eq!(calculate_duo(15), 2);
    assert_eq!(calculate_duo(16), 3);
}

#[test]
fn test_deck_size() {
    let deck = Deck::new();
    assert_eq!(deck.remaining(), 80);
}

#[test]
fn test_draw() {
    let mut deck = Deck::new();
    let card = deck.draw();
    assert!(card.is_some());
    assert_eq!(deck.remaining(), 79);
}

#[test]
fn test_draw_n() {
    let mut deck = Deck::new();
    let cards = deck.draw_n(5);
    assert_eq!(cards.len(), 5);
    assert_eq!(deck.remaining(), 75);
}

#[test]
fn test_game_creation() {
    let game = GameState::new();
    assert_eq!(game.phase, GamePhase::Waiting);
    assert!(game.players.is_empty());
}

#[test]
fn test_add_player() {
    let mut game = GameState::new();
    let player = Player::new("测试");
    let id = game.add_player(player).unwrap();
    assert_eq!(game.players.len(), 1);
    assert_eq!(game.players[0].id, id);
}

#[test]
fn test_game_flow() {
    let mut game = GameState::new();

    let p1 = Player::new("玩家1");
    let p2 = Player::new("玩家2");

    game.add_player(p1).unwrap();
    game.add_player(p2).unwrap();

    game.start_game().unwrap();

    assert_eq!(game.phase, GamePhase::Playing);
    assert!(game.dangdi.is_some());
}

#[test]
fn test_hand_operations() {
    let cards = vec![
        Card::new(Suit::Small, CardValue::One),
        Card::new(Suit::Small, CardValue::Two),
    ];
    let mut hand = Hand::new(cards);

    hand.add_card(Card::new(Suit::Small, CardValue::Three));
    assert_eq!(hand.len(), 3);

    let removed = hand.remove_card(0);
    assert!(removed.is_some());
    assert_eq!(hand.len(), 2);
}

#[test]
fn test_peng_detection() {
    let cards = vec![
        Card::new(Suit::Small, CardValue::One),
        Card::new(Suit::Small, CardValue::One),
        Card::new(Suit::Small, CardValue::Two),
    ];
    let hand = Hand::new(cards);

    let peng_card = Card::new(Suit::Small, CardValue::One);
    assert!(hand.can_peng(&peng_card));

    let no_peng_card = Card::new(Suit::Small, CardValue::Two);
    assert!(!hand.can_peng(&no_peng_card));
}

#[test]
fn test_valid_chi() {
    let chi = vec![
        Card::new(Suit::Small, CardValue::One),
        Card::new(Suit::Small, CardValue::Two),
        Card::new(Suit::Small, CardValue::Three),
    ];
    assert!(Meld::is_valid_chi(&chi));
}

#[test]
fn test_invalid_chi_different_suits() {
    let chi = vec![
        Card::new(Suit::Small, CardValue::One),
        Card::new(Suit::Big, CardValue::Two),
        Card::new(Suit::Small, CardValue::Three),
    ];
    assert!(!Meld::is_valid_chi(&chi));
}

#[test]
fn test_valid_2710() {
    let erqishi = vec![
        Card::new(Suit::Small, CardValue::Two),
        Card::new(Suit::Small, CardValue::Seven),
        Card::new(Suit::Small, CardValue::Ten),
    ];
    assert!(Meld::is_valid_2710(&erqishi));
}

#[test]
fn test_valid_peng() {
    let peng = vec![
        Card::new(Suit::Small, CardValue::Five),
        Card::new(Suit::Small, CardValue::Five),
        Card::new(Suit::Small, CardValue::Five),
    ];
    assert!(Meld::is_valid_peng(&peng));
}

#[test]
fn test_player_creation() {
    let player = Player::new("测试玩家");
    assert_eq!(player.name, "测试玩家");
    assert_eq!(player.state, PlayerState::Idle);
    assert!(!player.is_dealer);
}

#[test]
fn test_player_state_transition() {
    let mut player = Player::new("测试");
    player.set_ready();
    assert_eq!(player.state, PlayerState::Ready);

    player.set_playing();
    assert_eq!(player.state, PlayerState::Playing);
}

// ---- helpers for hand-built game states ----

/// Two players; seat 1 holds `claimer_cards`, seat 0 has just discarded `discard`,
/// and it is seat 1's turn.
fn claim_state(claimer_cards: Vec<Card>, discard: Card) -> (GameState, PlayerId, PlayerId) {
    let mut game = GameState::new();
    let a = Player::with_id(PlayerId(1), "甲");
    let b = Player::with_id(PlayerId(2), "乙");
    game.add_player(a).unwrap();
    game.add_player(b).unwrap();
    game.hands = vec![Hand::new(vec![c(Suit::Small, 9)]), Hand::new(claimer_cards)];
    game.discard_pile = vec![(PlayerId(1), discard)];
    game.phase = GamePhase::Playing;
    game.current_player_idx = 1;
    game.last_action = Some(GameAction::PlayCard { player: PlayerId(1), card_idx: 0 });
    (game, PlayerId(1), PlayerId(2))
}

fn sorted_keys(cards: &[Card]) -> Vec<u8> {
    let mut k: Vec<u8> = cards.iter().map(|x| x.key()).collect();
    k.sort();
    k
}

fn table_count(game: &GameState) -> usize {
    let mut n = game.deck.remaining() + game.discard_pile.len();
    for h in &game.hands {
        n += h.len();
        for m in h.melds() {
            n += m.cards.len();
        }
    }
    n
}

#[test]
fn two_player_seeded_deal_and_two_discards() {
    let mut game = GameState::new();
    let p0 = game.add_player(Player::new("甲")).unwrap();
    let p1 = game.add_player(Player::new("乙")).unwrap();
    game.start_game_seeded(7).unwrap();
    assert_eq!(game.hands[0].len(), 21);
    assert_eq!(game.hands[1].len(), 20);
    assert_eq!(game.deck.remaining(), 80 - 41);
    assert!(game.hands[0].cards().contains(&game.dangdi.unwrap()));
    game.play_card(p0, 0).unwrap();
    game.play_card(p1, 0).unwrap();
    assert_eq!(game.deck.remaining(), 37);
    assert_eq!(game.discard_pile.len(), 2);
    assert_eq!(table_count(&game), 80);
}

#[test]
fn seeded_shuffle_is_repeatable_and_reorders() {
    let mut a = Deck::new();
    let mut b = Deck::new();
    a.shuffle_seeded(42);
    b.shuffle_seeded(42);
    assert_eq!(a.peek_remaining(), b.peek_remaining());
    let fresh = Deck::new();
    assert_ne!(a.peek_remaining(), fresh.peek_remaining());
    let mut k1 = sorted_keys(a.peek_remaining());
    let mut k2 = sorted_keys(fresh.peek_remaining());
    k1.sort();
    k2.sort();
    assert_eq!(k1, k2);
}

#[test]
fn chi_run_is_accepted_with_three_huxi() {
    let (mut game, _, claimer) =
        claim_state(vec![c(Suit::Small, 1), c(Suit::Small, 2)], c(Suit::Small, 3));
    let meld = game.chi(claimer, vec![0, 1]).unwrap();
    assert_eq!(meld.meld_type, MeldType::Chi);
    assert!(meld.from_opponent);
    assert_eq!(sorted_keys(&meld.cards), vec![0, 1, 2]);
    assert_eq!(meld.huxi(), 3);
    assert!(game.discard_pile.is_empty());
    assert_eq!(game.hands[1].len(), 0);
    assert_eq!(game.calculate_hand_huxi(claimer), Ok(3));
}

#[test]
fn chi_across_suits_is_rejected() {
    let (mut game, _, claimer) =
        claim_state(vec![c(Suit::Small, 1), c(Suit::Big, 2)], c(Suit::Small, 3));
    assert_eq!(game.chi(claimer, vec![0, 1]).unwrap_err(), GameError::InvalidMeld);
    assert_eq!(game.discard_pile.len(), 1);
    assert_eq!(game.hands[1].len(), 2);
}

#[test]
fn chi_two_seven_ten_is_accepted() {
    let (mut game, _, claimer) =
        claim_state(vec![c(Suit::Small, 2), c(Suit::Small, 7)], c(Suit::Small, 10));
    let meld = game.chi(claimer, vec![0, 1]).unwrap();
    assert_eq!(meld.huxi(), 3);
}

#[test]
fn chi_errors() {
    let (mut game, discarder, claimer) =
        claim_state(vec![c(Suit::Small, 1), c(Suit::Small, 2)], c(Suit::Small, 3));
    assert_eq!(game.chi(claimer, vec![0]).unwrap_err(), GameError::InvalidMeld);
    assert_eq!(game.chi(claimer, vec![0, 5]).unwrap_err(), GameError::CardNotInHand);
    assert_eq!(game.chi(claimer, vec![1, 1]).unwrap_err(), GameError::InvalidMeld);
    assert_eq!(game.chi(discarder, vec![0, 0]).unwrap_err(), GameError::NotYourTurn);
    assert_eq!(game.chi(PlayerId(99), vec![0, 1]).unwrap_err(), GameError::PlayerNotFound);
}

#[test]
fn peng_big_five_and_pool() {
    // Build a full table: seat 1 holds two big fives, seat 0 discarded the third,
    // and seat 0 also holds the fourth with the other cards drawn from the top.
    let mut deck = Deck::new();
    let top = deck.draw_n(24);
    let b5 = c(Suit::Big, 5);
    let fives: Vec<Card> = top.iter().copied().filter(|x| *x == b5).collect();
    assert_eq!(fives.len(), 4);
    let others: Vec<Card> = top.iter().copied().filter(|x| *x != b5).collect();
    let mut seat0 = others.clone();
    seat0.push(b5);
    let mut game = GameState::new();
    game.add_player(Player::with_id(PlayerId(1), "甲")).unwrap();
    game.add_player(Player::with_id(PlayerId(2), "乙")).unwrap();
    game.deck = deck;
    game.hands = vec![Hand::new(seat0), Hand::new(vec![b5, b5])];
    game.discard_pile = vec![(PlayerId(1), b5)];
    game.phase = GamePhase::Playing;
    game.current_player_idx = 1;
    game.last_action = Some(GameAction::PlayCard { player: PlayerId(1), card_idx: 0 });
    assert_eq!(table_count(&game), 80);

    let meld = game.peng(PlayerId(2), b5).unwrap();
    assert_eq!(meld.meld_type, MeldType::Peng);
    assert_eq!(meld.huxi(), 6);
    assert_eq!(table_count(&game), 80);
    let mut outside = game.deck.peek_remaining().iter().filter(|x| **x == b5).count();
    outside += game.discard_pile.iter().filter(|x| x.1 == b5).count();
    for h in &game.hands {
        outside += h.count_of(&b5);
    }
    assert!(outside <= 1);
    assert_eq!(game.current_player_idx, 1);
}

#[test]
fn peng_needs_a_pair_and_the_discard() {
    let (mut game, _, claimer) = claim_state(vec![c(Suit::Big, 5)], c(Suit::Big, 5));
    assert_eq!(game.peng(claimer, c(Suit::Big, 5)).unwrap_err(), GameError::InvalidMeld);
    let (mut game, _, claimer) =
        claim_state(vec![c(Suit::Big, 6), c(Suit::Big, 6)], c(Suit::Big, 5));
    assert_eq!(game.peng(claimer, c(Suit::Big, 6)).unwrap_err(), GameError::InvalidMeld);
}

#[test]
fn hu_threshold_at_ten_huxi() {
    let (mut game, _, claimer) = claim_state(vec![], c(Suit::Small, 3));
    for _ in 0..3 {
        game.hands[1].add_meld(Meld::new(
            MeldType::Chi,
            vec![c(Suit::Small, 1), c(Suit::Small, 2), c(Suit::Small, 3)],
            true,
        ));
    }
    assert_eq!(game.calculate_hand_huxi(claimer), Ok(9));
    assert_eq!(game.can_hu(claimer), Ok(false));
    game.hands[1].add_meld(Meld::new(
        MeldType::Chi,
        vec![c(Suit::Small, 4), c(Suit::Small, 5), c(Suit::Small, 6)],
        true,
    ));
    assert_eq!(game.can_hu(claimer), Ok(true));
}

#[test]
fn play_card_turn_legality() {
    let mut game = GameState::new();
    let p0 = game.add_player(Player::new("甲")).unwrap();
    let p1 = game.add_player(Player::new("乙")).unwrap();
    assert_eq!(game.play_card(p0, 0).unwrap_err(), GameError::InvalidAction);
    game.start_game_seeded(3).unwrap();
    assert_eq!(game.play_card(p1, 0).unwrap_err(), GameError::NotYourTurn);
    assert_eq!(game.play_card(p0, 21).unwrap_err(), GameError::CardNotInHand);
    let first = game.hands[0].cards()[4];
    assert_eq!(game.play_card(p0, 4), Ok(first));
    assert_eq!(game.current_player_idx, 1);
    assert_eq!(game.discard_pile.last(), Some(&(p0, first)));
}

#[test]
fn game_errors() {
    let mut game = GameState::new();
    let p0 = game.add_player(Player::new("甲")).unwrap();
    assert_eq!(game.start_game().unwrap_err(), GameError::InvalidAction);
    assert_eq!(
        game.add_player(Player::with_id(p0, "重复")).unwrap_err(),
        GameError::InvalidAction
    );
    for i in 0..3 {
        game.add_player(Player::with_id(PlayerId(100 + i), "x")).unwrap();
    }
    assert_eq!(game.add_player(Player::new("满")).unwrap_err(), GameError::GameFull);
    assert_eq!(game.draw_card(PlayerId(7)).unwrap_err(), GameError::PlayerNotFound);
    assert_eq!(game.calculate_hand_huxi(p0).unwrap_err(), GameError::PlayerNotFound);
    game.start_game().unwrap();
    assert_eq!(game.start_game().unwrap_err(), GameError::InvalidAction);
    // Four players ask for 81 cards: the last seat gets what is left.
    assert_eq!(game.hands[3].len(), 19);
    assert_eq!(game.deck.remaining(), 0);
    assert_eq!(table_count(&game), 80);
}

#[test]
fn error_messages() {
    assert_eq!(GameError::GameFull.to_string(), "游戏已满，无法加入");
    assert_eq!(GameError::NotYourTurn.to_string(), "不是当前玩家的回合");
    assert_eq!(GameError::SkillError("x".to_string()).to_string(), "技能使用失败: x");
}

#[test]
fn huxi_never_decreases_when_adding_melds() {
    let mut hand = Hand::new(vec![]);
    let mut last = hand.total_huxi();
    let melds = vec![
        (MeldType::Kan, c(Suit::Big, 1)),
        (MeldType::Sao, c(Suit::Small, 2)),
        (MeldType::Peng, c(Suit::Big, 3)),
    ];
    for (t, x) in melds {
        hand.add_meld(Meld::new(t, vec![x, x, x], false));
        let now = hand.total_huxi();
        assert!(now >= last);
        last = now;
    }
    assert_eq!(last, 12 + 6 + 6);
}

#[test]
fn duo_steps() {
    assert_eq!(calculate_duo(0), 0);
    assert_eq!(calculate_duo(37), 10);
    assert_eq!(calculate_duo(255), 10);
    assert_eq!(calculate_duo(34), 9);
}

#[test]
fn base_huxi_table() {
    assert_eq!(MeldType::Chi.base_huxi(false), 3);
    assert_eq!(MeldType::SaoChuan.base_huxi(true), 12);
    assert_eq!(MeldType::KaiDuo.base_huxi(false), 6);
    assert_eq!(MeldType::Kan.base_huxi(false), 9);
}

#[test]
fn card_counts_and_types() {
    let hand = Hand::new(vec![c(Suit::Big, 10), c(Suit::Small, 1), c(Suit::Big, 10)]);
    let counts = hand.get_card_counts();
    assert_eq!(counts.len(), 20);
    assert_eq!(counts[19], 2);
    assert_eq!(counts[0], 1);
    assert_eq!(counts.iter().sum::<usize>(), hand.len());
    assert_eq!(c(Suit::Big, 10).card_type(), CardType::Red);
    assert_eq!(c(Suit::Big, 9).card_type(), CardType::Black);
    assert!(Meld::is_valid_san_da(&[c(Suit::Big, 1), c(Suit::Small, 1), c(Suit::Small, 2)]));
    assert!(Meld::is_valid_sao(&[c(Suit::Big, 1), c(Suit::Big, 1)], &c(Suit::Big, 1)));
}

#[test]
fn sort_orders_by_suit_then_value() {
    let mut hand = Hand::new(vec![c(Suit::Big, 2), c(Suit::Small, 9), c(Suit::Small, 1)]);
    hand.sort();
    assert_eq!(hand.cards(), &[c(Suit::Small, 1), c(Suit::Small, 9), c(Suit::Big, 2)]);
    assert_eq!(hand.find_card(&c(Suit::Big, 2)), Some(2));
}

#[test]
fn view_masks_other_hands() {
    let mut game = GameState::new();
    let p0 = game.add_player(Player::new("甲")).unwrap();
    game.add_player(Player::new("乙")).unwrap();
    game.start_game_seeded(11).unwrap();
    let view = game.view_for(p0);
    assert_eq!(view.own_cards.as_slice(), game.hands[0].cards());
    assert_eq!(view.seats.len(), 2);
    assert_eq!(view.seats[1].hand_count, 20);
    assert_eq!(view.deck_size, 39);
    let outsider = game.view_for(PlayerId(5));
    assert!(outsider.own_cards.is_empty());
}

#[test]
fn shuffle_keeps_cards_and_reorders() {
    let mut deck = Deck::new();
    deck.shuffle();
    assert_eq!(deck.remaining(), 80);
    let fresh = Deck::new();
    assert_ne!(deck.peek_remaining(), fresh.peek_remaining());
    assert_eq!(sorted_keys(deck.peek_remaining()), sorted_keys(fresh.peek_remaining()));
}

#[test]
fn hu_declaration_scores_the_win() {
    let (mut game, discarder, claimer) = claim_state(vec![], c(Suit::Small, 3));
    assert_eq!(game.declare_hu(claimer).unwrap_err(), GameError::InvalidAction);
    for v in [1u8, 4] {
        game.hands[1].add_meld(Meld::new(
            MeldType::Kan,
            vec![c(Suit::Big, v), c(Suit::Big, v), c(Suit::Big, v)],
            false,
        ));
    }
    assert_eq!(game.declare_hu(PlayerId(42)).unwrap_err(), GameError::PlayerNotFound);
    let win = game.declare_hu(claimer).unwrap();
    assert_eq!(win.winner, claimer);
    assert_eq!(win.huxi, 24);
    assert_eq!(win.duo, 5);
    assert!(!win.is_zimo);
    assert!(win.is_dihu);
    assert!(!win.is_tianhu);
    assert_eq!(win.fan, 7);
    assert_eq!(game.phase, GamePhase::Settling);
    assert_eq!(game.declare_hu(discarder).unwrap_err(), GameError::InvalidAction);
}
