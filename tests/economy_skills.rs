use guilin_paizi::claims::ClaimKind;
use guilin_paizi::card::{Card, CardValue, Suit};
use guilin_paizi::economy::currency::{CurrencySystem, HappyBeans, TransactionType, DAY_MILLIS};
use guilin_paizi::economy::ranking::{EloRating, Rank, RankingSystem, Tier};
use guilin_paizi::economy::settlement::{GameOutcome, ModifierType, SettlementCalculator, SkillModifier};
use guilin_paizi::economy::{EconomyConfig, EconomySystem};
use guilin_paizi::game::{GamePhase, GameState};
use guilin_paizi::message::{ClientMessage, ServerMessage};
use guilin_paizi::player::{Player, PlayerId};
use guilin_paizi::room::{GameRoom, RoomState};
use guilin_paizi::skills::catalog::{create_all_skills, get_skill_by_id, FanYaSkill, SkillKind};
use guilin_paizi::skills::effect::{
    EconomyModifier, EffectData, EffectHandler, InformationType, SkillEffect, StandardEffectHandler,
};
use guilin_paizi::skills::trigger::TriggerCondition;
use guilin_paizi::skills::{Skill, SkillCategory, SkillInstance, SkillManager};
use guilin_paizi::text::decimal_text;

fn outcome(id: u128, winner: bool, zimo: bool, mods: Vec<SkillModifier>) -> GameOutcome {
    GameOutcome {
        player_id: PlayerId(id),
        is_winner: winner,
        huxi: 0,
        duo: 0,
        fan: 0,
        is_zimo: zimo,
        is_tianhu: false,
        is_dihu: false,
        skill_modifiers: mods,
    }
}

#[test]
fn settlement_two_players_zimo() {
    let config = EconomyConfig::default();
    let calc = SettlementCalculator::new(config);
    let game = GameState::new();
    assert_eq!(SettlementCalculator::rake(&config, 2), 100);
    let results = calc.calculate_settlement(
        &game,
        vec![outcome(1, true, true, vec![]), outcome(2, false, false, vec![])],
        &config,
    );
    assert_eq!(results[0].base_beans, 1900);
    assert_eq!(results[0].final_beans, 3800);
    assert_eq!(results[1].final_beans, -1000);
    assert_eq!(results[0].rating_change, 0);
    // The residue of the zimo doubling accrues to the rake: the house books -2800,
    // which is the rake (100) plus the residue (-2900).
    assert_eq!(results[0].rake_deduction, -2800);
    assert_eq!(results[1].rake_deduction, 0);
    let balance: i64 = results.iter().map(|r| r.final_beans + r.rake_deduction).sum();
    assert_eq!(balance, 0);
}

#[test]
fn settlement_plain_hand_conserves_beans() {
    let config = EconomyConfig::default();
    let calc = SettlementCalculator::new(config);
    let game = GameState::new();
    let results = calc.calculate_settlement(
        &game,
        vec![
            outcome(1, false, false, vec![]),
            outcome(2, true, false, vec![]),
            outcome(3, false, false, vec![]),
        ],
        &config,
    );
    let total: i64 = results.iter().map(|r| r.final_beans).sum();
    let rake = SettlementCalculator::rake(&config, 3);
    assert_eq!(rake, 150);
    assert_eq!(total + rake, config.base_bet as i64);
    // The winner's own stake is the residue; booked with the rake, everything balances.
    assert_eq!(results[1].rake_deduction, rake - config.base_bet as i64);
    assert_eq!(results[0].rake_deduction, 0);
    let house: i64 = results.iter().map(|r| r.rake_deduction).sum();
    assert_eq!(total + house, 0);
}

#[test]
fn settlement_skill_modifiers() {
    let config = EconomyConfig::default();
    let calc = SettlementCalculator::new(config);
    let game = GameState::new();
    let bonus = SkillModifier {
        skill_id: 9,
        skill_name: "加码".to_string(),
        modifier_type: ModifierType::WinBonus,
        value_bp: 300,
    };
    let cushion = SkillModifier {
        skill_id: 8,
        skill_name: "稳豆".to_string(),
        modifier_type: ModifierType::LossReduction,
        value_bp: 500,
    };
    let results = calc.calculate_settlement(
        &game,
        vec![outcome(1, true, false, vec![bonus]), outcome(2, false, false, vec![cushion])],
        &config,
    );
    assert_eq!(results[0].skill_bonus, 57);
    assert_eq!(results[0].final_beans, 1957);
    assert_eq!(results[1].skill_bonus, 50);
    assert_eq!(results[1].final_beans, -950);
}

#[test]
fn fan_and_duo_from_calculator() {
    let calc = SettlementCalculator::new(EconomyConfig::default());
    assert_eq!(calc.calculate_duo_from_huxi(13), 2);
    assert_eq!(calc.calculate_fan(2, true, true, false), 5);
    assert_eq!(calc.calculate_fan(1, false, false, true), 3);
}

#[test]
fn deduct_fails_exactly_when_short() {
    let mut beans = HappyBeans::new(100);
    assert!(!beans.deduct(101, TransactionType::EntryFee, "入场"));
    assert_eq!(beans.balance, 100);
    assert!(beans.transaction_history.is_empty());
    assert!(beans.deduct(100, TransactionType::EntryFee, "入场"));
    assert_eq!(beans.balance, 0);
    assert_eq!(beans.total_spent, 100);
    assert_eq!(beans.transaction_history[0].amount, -100);
    beans.add(30, TransactionType::Win, "赢");
    assert_eq!(beans.balance, 30);
    assert_eq!(beans.total_earned, 130);
    assert!(beans.has_sufficient(30));
    assert!(!beans.has_sufficient(31));
}

#[test]
fn currency_transfer_and_daily_bonus() {
    let mut sys = CurrencySystem::new();
    let a = PlayerId(1);
    let b = PlayerId(2);
    sys.register_player(a, 500);
    sys.register_player(b, 0);
    assert!(!sys.transfer(a, b, 600, "输"));
    assert!(sys.transfer(a, b, 200, "输"));
    assert_eq!(sys.get_balance(a), Some(300));
    assert_eq!(sys.get_balance(b), Some(200));
    assert!(!sys.transfer(a, PlayerId(9), 1, "输"));
    assert_eq!(sys.get_balance(PlayerId(9)), None);
    assert!(sys.can_claim_daily_at(a, 0));
    assert_eq!(sys.claim_daily_bonus_at(a, 5000, 1_000), Some(5300));
    assert!(!sys.can_claim_daily_at(a, 1_000 + DAY_MILLIS - 1));
    assert_eq!(sys.claim_daily_bonus_at(a, 5000, 2_000), None);
    assert!(sys.can_claim_daily_at(a, 1_000 + DAY_MILLIS));
    assert_eq!(sys.claim_daily_bonus_at(PlayerId(9), 5000, 0), None);
}

#[test]
fn elo_equal_ratings_are_symmetric() {
    let win = EloRating::rating_delta(32, 500, true);
    let lose = EloRating::rating_delta(32, 500, false);
    assert_eq!(win, 16);
    assert_eq!(lose, -16);
    assert_eq!(EloRating::rating_delta(24, 640, true), 9);
    assert_eq!(EloRating::rating_delta(24, 360, false), -9);
    let mut e = EloRating::new();
    e.update_rating(500, true);
    assert_eq!(e.rating, 1016);
    assert_eq!(e.games_played, 1);
    assert_eq!(e.wins, 1);
    let mut low = EloRating { rating: 5, games_played: 40, wins: 0, losses: 40 };
    assert_eq!(low.k_factor(), 24);
    low.update_rating(1000, false);
    assert_eq!(low.rating, 0);
    let high = EloRating { rating: 2100, games_played: 40, wins: 0, losses: 40 };
    assert_eq!(high.k_factor(), 16);
}

#[test]
fn rank_promotion_and_demotion() {
    let mut r = Rank::new(Tier::Bronze, 4);
    r.add_star();
    assert_eq!(r, Rank::new(Tier::Silver, 0));
    r.demote();
    assert_eq!(r, Rank::new(Tier::Bronze, 4));
    let mut bottom = Rank::new(Tier::Bronze, 0);
    bottom.demote();
    assert_eq!(bottom, Rank::new(Tier::Bronze, 0));
    let mut top = Rank::new(Tier::GrandMaster, 3);
    top.add_star();
    assert_eq!(top, Rank::new(Tier::GrandMaster, 4));
    assert_eq!(Tier::Gold.base_rating(), 1000);
    assert_eq!(Tier::GrandMaster.stars_to_promote(), 0);
    assert_eq!(Tier::Diamond.to_string(), "钻石");
}

#[test]
fn ranking_after_match() {
    let mut sys = RankingSystem::new();
    let a = PlayerId(1);
    let b = PlayerId(2);
    sys.register_player(a);
    sys.register_player(b);
    sys.update_after_match(a, b, 500);
    assert_eq!(sys.get_rating(a).unwrap().rating, 1016);
    assert_eq!(sys.get_rating(b).unwrap().rating, 984);
    assert_eq!(*sys.get_rank(a).unwrap(), Rank::new(Tier::Bronze, 1));
    assert_eq!(*sys.get_rank(b).unwrap(), Rank::new(Tier::Bronze, 0));
    assert!(sys.get_rank(PlayerId(3)).is_none());
}

#[test]
fn economy_system_settles_with_its_config() {
    let mut eco = EconomySystem::default();
    let game = GameState::new();
    let results = eco.process_game_result(
        &game,
        vec![outcome(1, true, false, vec![]), outcome(2, false, false, vec![])],
    );
    assert_eq!(results[0].final_beans, 1900);
}

fn playing_game() -> (GameState, PlayerId, PlayerId) {
    let mut game = GameState::new();
    let p0 = game.add_player(Player::new("甲")).unwrap();
    let p1 = game.add_player(Player::new("乙")).unwrap();
    game.start_game_seeded(5).unwrap();
    (game, p0, p1)
}

#[test]
fn skill_catalog() {
    let all = create_all_skills();
    assert_eq!(all.len(), 12);
    for (i, s) in all.iter().enumerate() {
        assert_eq!(s.id(), i as u32 + 1);
        assert!(s.max_uses() >= 1);
    }
    assert!(get_skill_by_id(0).is_none());
    assert!(get_skill_by_id(13).is_none());
    let s = get_skill_by_id(4).unwrap();
    assert_eq!(s.name(), "明算");
    assert_eq!(s.max_uses(), 5);
    assert_eq!(s.category(), SkillCategory::Information);
    assert_eq!(SkillCategory::Risk.to_string(), "风险类");
}

#[test]
fn skill_budget_is_spent_on_success_only() {
    let (mut game, p0, _) = playing_game();
    let mut inst = SkillInstance::new(get_skill_by_id(8).unwrap());
    assert_eq!(inst.remaining_uses, 1);
    assert!(inst.try_use(&mut game, p0, None).success);
    assert_eq!(inst.remaining_uses, 0);
    let again = inst.try_use(&mut game, p0, None);
    assert!(!again.success);
    assert_eq!(again.message, "技能使用次数已耗尽");

    let mut fan_ya = SkillInstance::new(SkillKind::FanYa(FanYaSkill));
    let r = fan_ya.try_use(&mut game, p0, None);
    assert!(!r.success);
    assert_eq!(fan_ya.remaining_uses, 1);
    let r = fan_ya.try_use(&mut game, p0, Some(PlayerId(0)));
    assert!(r.success);
    assert_eq!(r.message, "已对玩家 00000000-0000-0000-0000-000000000000 施加反压");
    assert!(matches!(r.effect_data, Some(EffectData::TargetPenalty { penalty_bp: 500, .. })));
}

#[test]
fn information_skills_reveal_pool_facts() {
    let (mut game, p0, p1) = playing_game();
    let mut ming = SkillInstance::new(get_skill_by_id(4).unwrap());
    let r = ming.try_use(&mut game, p0, None);
    assert_eq!(r.message, "牌池剩余 39 张");
    assert!(matches!(r.effect_data, Some(EffectData::DeckSize(39))));

    let mut guan = SkillInstance::new(get_skill_by_id(2).unwrap());
    assert!(!guan.try_use(&mut game, p0, None).success);
    let played = game.play_card(p0, 0).unwrap();
    let r = guan.try_use(&mut game, p1, None);
    assert!(r.success);
    assert_eq!(r.message, format!("最近弃牌: [\"{}\"]", played.to_string()));
    match r.effect_data {
        Some(EffectData::Discards(v)) => assert_eq!(v, vec![played]),
        _ => panic!("expected discards"),
    }
}

#[test]
fn skill_manager_uses_by_position() {
    let (mut game, p0, _) = playing_game();
    let mut manager = SkillManager::new();
    manager.assign_skills(p0, create_all_skills());
    assert_eq!(manager.get_player_skills(p0).unwrap().len(), 12);
    assert!(manager.use_skill(p0, 12, &mut game, None).is_none());
    assert!(manager.use_skill(PlayerId(77), 0, &mut game, None).is_none());
    let r = manager.use_skill(p0, 6, &mut game, None).unwrap();
    assert!(r.success);
    assert_eq!(manager.get_player_skills(p0).unwrap()[6].remaining_uses, 9);
}

#[test]
fn trigger_conditions() {
    let (game, p0, _) = playing_game();
    assert!(TriggerCondition::Always.check(&game, p0));
    assert!(TriggerCondition::HandSize(21).check(&game, p0));
    assert!(!TriggerCondition::HandSize(20).check(&game, p0));
    assert!(TriggerCondition::HuxiAbove(0).check(&game, p0));
    assert!(!TriggerCondition::InTing.check(&game, p0));
    assert!(TriggerCondition::LastRounds(39).check(&game, p0));
    assert!(!TriggerCondition::LastRounds(38).check(&game, p0));
    assert!(TriggerCondition::Random(1000).check(&game, p0));
    assert!(!TriggerCondition::Random(0).check(&game, p0));
    assert!(TriggerCondition::Random(300).check_with_draw(&game, p0, 299));
    assert!(!TriggerCondition::Random(300).check_with_draw(&game, p0, 300));
}

#[test]
fn room_lifecycle() {
    let mut room = GameRoom::new("r1".to_string(), 2);
    let a = PlayerId(1);
    let b = PlayerId(2);
    assert!(room.add_player(a));
    assert!(!room.add_player(a));
    assert_eq!(room.players[0].name, "玩家1");
    assert_eq!(room.play_card(a, 0), Err(guilin_paizi::error::GameError::GameNotStarted));
    let joined = room.handle_intent(b, ClientMessage::JoinRoom { room_id: "r1".to_string() });
    assert!(matches!(joined[0], ServerMessage::RoomJoined { .. }));
    assert!(room.is_full());
    let refused = room.handle_intent(PlayerId(3), ClientMessage::JoinRoom { room_id: "r1".to_string() });
    assert!(matches!(refused[0], ServerMessage::Error { .. }));
    room.set_player_ready(a, true);
    assert!(!room.can_start());
    let events = room.handle_intent(b, ClientMessage::Ready { room_id: "r1".to_string() });
    assert!(matches!(events[1], ServerMessage::GameStarted { .. }));
    assert_eq!(room.state, RoomState::Playing);
    assert_eq!(room.game_state.as_ref().unwrap().phase, GamePhase::Playing);
    let wrong = room.handle_intent(b, ClientMessage::PlayCard { room_id: "r1".to_string(), card_idx: 0 });
    assert!(matches!(wrong[0], ServerMessage::Error { .. }));
    let ok = room.handle_intent(a, ClientMessage::PlayCard { room_id: "r1".to_string(), card_idx: 0 });
    assert!(matches!(ok[0], ServerMessage::CardPlayed { .. }));
    let used = room.handle_intent(a, ClientMessage::UseSkill { room_id: "r1".to_string(), skill_id: 4, target: None });
    assert!(matches!(used[0], ServerMessage::SkillUsed { .. }));
    assert!(room.remove_player(b));
    assert!(!room.remove_player(b));
    assert_eq!(room.get_player_count(), 1);
}

#[test]
fn text_helpers() {
    assert_eq!(decimal_text(0), "0");
    assert_eq!(decimal_text(1907), "1907");
    let c = Card::new(Suit::Big, CardValue::Ten);
    assert_eq!(c.to_string(), "拾");
}

#[test]
fn standard_effects() {
    let (mut game, p0, _) = playing_game();
    let h = StandardEffectHandler;
    let r = h.apply(&SkillEffect::RevealInformation(InformationType::DeckSize), &mut game, p0);
    assert_eq!(r.effect_type, "明算");
    assert_eq!(r.description, "牌堆剩余 39 张牌");
    assert!(matches!(r.data, Some(EffectData::DeckSize(39))));
    let r = h.apply(&SkillEffect::ModifyEconomy(EconomyModifier::WinBonus(300)), &mut game, p0);
    assert_eq!(r.description, "胡牌时欢乐豆额外 +3%");
    let r = h.apply(&SkillEffect::ModifyEconomy(EconomyModifier::LossReduction(500)), &mut game, p0);
    assert_eq!(r.description, "输牌时欢乐豆损失减少 5%");
    let r = h.apply(&SkillEffect::AllowUndo, &mut game, p0);
    assert_eq!(r.description, "出牌后2秒内可撤回");
    assert!(r.data.is_none());
}

#[test]
fn room_claim_window_and_state_updates() {
    let mut room = GameRoom::new("r2".to_string(), 3);
    let (a, b, c) = (PlayerId(1), PlayerId(2), PlayerId(3));
    for p in [a, b, c] {
        assert!(room.add_player(p));
    }
    assert!(room.resolve_claim_window(&vec![(b, ClaimKind::Hu)]).is_none());
    for p in [a, b, c] {
        room.set_player_ready(p, true);
    }
    assert_eq!(room.state, RoomState::Playing);
    let updates = room.state_updates();
    assert_eq!(updates.len(), 3);
    assert_eq!(updates[1].0, b);
    assert_eq!(updates[1].1.own_cards.len(), 20);
    assert_eq!(updates[0].1.seats[1].hand_count, 20);
    assert!(room.play_card(a, 0).is_ok());
    let claims = vec![(b, ClaimKind::Chi), (c, ClaimKind::PengSao), (PlayerId(9), ClaimKind::Hu)];
    assert_eq!(room.resolve_claim_window(&claims), Some(c));
    assert_eq!(room.resolve_claim_window(&vec![(c, ClaimKind::Chi)]), None);
}

#[test]
fn public_events() {
    assert!(ServerMessage::CardPlayed { player_id: PlayerId(1), card: Card::new(Suit::Small, CardValue::One) }.is_public());
    assert!(ServerMessage::GameEnded { winner: None }.is_public());
    assert!(!ServerMessage::Error { message: "x".to_string() }.is_public());
    assert!(!ServerMessage::RoomJoined { room_id: "r".to_string(), player_id: PlayerId(1) }.is_public());
}

#[test]
fn first_daily_claim_succeeds() {
    let mut sys = CurrencySystem::new();
    sys.register_player(PlayerId(4), 10);
    assert_eq!(sys.claim_daily_bonus(PlayerId(4), 5000), Some(5010));
}
