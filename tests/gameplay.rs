use brawl_engine::error::Error;
use brawl_engine::gameplay::battle_brawler::{BattleAttack, BattleUlt, BrawlerInfo};
use brawl_engine::gameplay::battle_game_mode::gemgrab::{GemGrab, GemGrabMove};
use brawl_engine::gameplay::battle_game_mode::showdown::{Showdown, ShowdownMove};
use brawl_engine::gameplay::battle_game_mode::{Battle, BattleGameMode, GeneralMove, Step};
use brawl_engine::gameplay::player::{
    CharacterStatus, Player, PlayerBrawlerState, PlayerId, PlayerState, Position,
};
use brawl_engine::gameplay::{GameResult, Players};
use brawl_engine::model::game_mode::Event;

fn brawler(health: u32, damage: u32, range: u32, projectiles: u32) -> BrawlerInfo {
    BrawlerInfo {
        name: String::from("Shelly"),
        health,
        speed: 720,
        attack: BattleAttack {
            damage,
            description: String::from("Buckshot"),
            max_ammo: 3,
            range,
            reload: 15,
            projectiles,
        },
        ult: BattleUlt {
            damage: Some(damage),
            description: String::from("Super Shell"),
            range: Some(range),
            projectiles,
            hits_required: 2,
            spawn: None,
        },
    }
}

fn player(id: u64, health: u32, damage: u32) -> Player {
    Player::new(PlayerId(id), PlayerBrawlerState::new(brawler(health, damage, 50, 1), 1), id == 1)
}

fn players(health: u32, damage: u32) -> Players {
    Players::new(player(1, health, damage), player(2, health, damage))
}

#[test]
fn attack_at_point_blank_takes_one_hit_and_one_ammo() {
    let info = brawler(500, 100, 50, 1);
    let mut first = PlayerState::new(3, 500);
    let mut second = PlayerState::new(3, 500);
    info.attack(&mut first, &mut second, 1);
    assert_eq!(second.health, 400);
    assert_eq!(first.ammo, 2);
    assert_eq!(first.attacks, 1);
    assert_eq!(second.status, CharacterStatus::Alive);
}

#[test]
fn attack_out_of_range_changes_nothing() {
    let info = brawler(500, 100, 50, 1);
    let mut first = PlayerState::new(3, 500);
    let mut second = PlayerState::new(3, 500);
    second.position = Position::new(4, 4);
    info.attack(&mut first, &mut second, 1);
    assert_eq!(second.health, 500);
    assert_eq!(first.ammo, 3);
    second.position = Position::new(6, 0);
    info.attack(&mut first, &mut second, 1);
    assert_eq!(second.health, 500);
}

#[test]
fn projectiles_spread_with_distance() {
    // Range 5 tiles, target 3 tiles away: 2 tiles of reach left, so half of
    // 5 projectiles, rounded up, hit.
    let info = brawler(1000, 10, 50, 5);
    let mut first = PlayerState::new(3, 1000);
    let mut second = PlayerState::new(3, 1000);
    second.position = Position::new(3, 0);
    info.attack(&mut first, &mut second, 1);
    assert_eq!(second.health, 1000 - 10 * 3);
    // At exactly the range the spread is 1: every projectile hits.
    second.position = Position::new(5, 0);
    info.attack(&mut first, &mut second, 1);
    assert_eq!(second.health, 1000 - 30 - 50);
}

#[test]
fn ult_spends_landed_attacks() {
    let info = brawler(1000, 100, 50, 1);
    let mut first = PlayerState::new(3, 1000);
    first.attacks = 4;
    let mut second = PlayerState::new(3, 1000);
    info.ult(&mut first, &mut second, 1);
    assert_eq!(first.attacks, 0);
    assert_eq!(second.health, 900);
    assert_eq!(first.ammo, 3);
}

#[test]
fn damage_floors_at_zero_and_kills() {
    let mut s = PlayerState::new(3, 300);
    s.damage(100);
    assert_eq!(s.health, 200);
    assert_eq!(s.status, CharacterStatus::Alive);
    s.damage(200);
    assert_eq!(s.health, 0);
    assert_eq!(s.status, CharacterStatus::Dead);
    let mut t = PlayerState::new(3, 50);
    t.damage(u32::MAX);
    assert_eq!(t.health, 0);
    assert!(t.is_dead());
    assert!(!t.is_respawning());
}

#[test]
fn buffed_stats_rise_with_level_and_stop_at_nine() {
    assert_eq!(BrawlerInfo::buff_stat(100, 1), 100);
    assert_eq!(BrawlerInfo::buff_stat(100, 5), 120);
    assert_eq!(BrawlerInfo::buff_stat(3300, 9), 3300 + 3300 * 8 / 20);
    assert_eq!(BrawlerInfo::buff_stat(3300, 10), BrawlerInfo::buff_stat(3300, 9));
    let mut last = 0;
    for level in 1..=10 {
        let v = BrawlerInfo::buff_stat(1234, level);
        assert!(v >= last);
        last = v;
    }
    assert_eq!(BrawlerInfo::buff_stat(19, 2), 19);
}

#[test]
fn new_player_has_full_ammo_and_health_at_its_level() {
    let p = Player::new(PlayerId(7), PlayerBrawlerState::new(brawler(1000, 100, 50, 1), 5), true);
    assert_eq!(p.state.health, 1200);
    assert_eq!(p.state.max_health, 1200);
    assert_eq!(p.state.ammo, 3);
    assert!(p.can_attack());
    assert!(!p.can_super());
}

#[test]
fn full_ammo_does_not_regenerate() {
    let mut p = player(1, 1000, 100);
    assert!(!p.regenerate_ammo(10));
    assert_eq!(p.state.ammo, 3);
}

#[test]
fn ammo_regenerates_after_reload_time() {
    let mut p = player(1, 1000, 100);
    p.state.ammo = 1;
    p.state.last_used_ammo = 9;
    // Reload of 1.5 rounds takes 2 rounds.
    assert!(!p.regenerate_ammo(10));
    assert_eq!(p.state.ammo, 1);
    assert!(p.regenerate_ammo(11));
    assert_eq!(p.state.ammo, 2);
}

#[test]
fn healing_waits_three_rounds_and_caps_at_max() {
    let mut p = player(1, 1000, 100);
    p.state.health = 500;
    p.state.last_attack_round = 5;
    assert!(!BattleGameMode::heal(&mut p, 8));
    assert_eq!(p.state.health, 500);
    assert!(BattleGameMode::heal(&mut p, 9));
    assert_eq!(p.state.health, 600);
    p.state.health = 950;
    assert!(BattleGameMode::heal(&mut p, 9));
    assert_eq!(p.state.health, 1000);
}

#[test]
fn stun_is_cleared_and_both_told() {
    let mut p = player(1, 1000, 100);
    p.state.is_stunned = true;
    let notices = BattleGameMode::handle_stun(&mut p, &PlayerId(2));
    assert!(!p.state.is_stunned);
    assert_eq!(notices.len(), 2);
    assert_eq!(notices[0].player, PlayerId(1));
    assert_eq!(notices[0].message, "You are stunned!");
    assert_eq!(notices[1].player, PlayerId(2));
    assert_eq!(notices[1].message, "Opponent is stunned!");
    assert!(BattleGameMode::handle_stun(&mut p, &PlayerId(2)).is_empty());
}

#[test]
fn dodge_sets_invincibility_until_the_opponent_moves() {
    let mut ps = players(1000, 100);
    let mut game = GemGrab::new();
    game.play_turn(&mut ps, GemGrabMove::General(GeneralMove::Dodge), 0);
    assert!(ps.0.state.is_invincible);
    game.play_turn(&mut ps, GemGrabMove::General(GeneralMove::Dodge), 0);
    assert!(!ps.0.state.is_invincible);
    assert!(ps.1.state.is_invincible);
}

#[test]
fn showdown_poison_hits_both_from_round_forty() {
    let mut ps = players(1000, 100);
    let mut game = Showdown::new();
    game.round_num = 40;
    let step = game.play_turn(&mut ps, ShowdownMove::General(GeneralMove::Attack), 0);
    assert!(matches!(step, Step::Inform(ref n) if n.is_empty()));
    assert_eq!(ps.0.state.health, 900);
    assert_eq!(ps.1.state.health, 800);
    assert_eq!(game.round_num, 41);
}

#[test]
fn showdown_before_round_forty_has_no_poison() {
    let mut ps = players(1000, 100);
    let mut game = Showdown::new();
    game.round_num = 38;
    game.play_turn(&mut ps, ShowdownMove::General(GeneralMove::Dodge), 0);
    assert_eq!(ps.0.state.health, 1000);
    assert_eq!(ps.1.state.health, 1000);
}

#[test]
fn showdown_last_player_alive_wins() {
    let mut ps = players(1000, 100);
    ps.1.state.health = 100;
    let mut game = Showdown::new();
    let step = game.play_turn(&mut ps, ShowdownMove::General(GeneralMove::Attack), 0);
    let winner = GameResult::Decisive { winner: PlayerId(1), loser: PlayerId(2) };
    assert!(matches!(step, Step::Finished(ref n, r) if n.is_empty() && r == winner));
    assert_eq!(game.result, Some(winner));
    assert!(winner.is_decisive());
    assert!(!winner.is_draw());
}

#[test]
fn showdown_both_dead_is_a_draw() {
    let mut ps = players(1000, 100);
    ps.0.state.health = 100;
    ps.0.state.last_attack_round = 38;
    ps.1.state.health = 100;
    let mut game = Showdown::new();
    game.round_num = 40;
    let step = game.play_turn(&mut ps, ShowdownMove::General(GeneralMove::Dodge), 0);
    assert!(matches!(step, Step::Finished(_, GameResult::Draw)));
    assert!(GameResult::Draw.is_draw());
}

#[test]
fn gem_grab_ten_gems_wins() {
    let mut ps = players(1000, 100);
    let mut game = GemGrab::new();
    game.round_num = 20;
    game.gems = (9, 7);
    let step = game.play_turn(&mut ps, GemGrabMove::CollectGem, 1);
    let winner = GameResult::Decisive { winner: PlayerId(1), loser: PlayerId(2) };
    assert!(matches!(step, Step::Finished(ref n, r) if n.is_empty() && r == winner));
    assert_eq!(game.gems, (10, 7));
}

#[test]
fn gem_grab_both_at_ten_is_a_draw() {
    let mut ps = players(1000, 100);
    let mut game = GemGrab::new();
    game.round_num = 30;
    game.gems = (9, 10);
    let step = game.play_turn(&mut ps, GemGrabMove::CollectGem, 1);
    assert!(matches!(step, Step::Finished(_, GameResult::Draw)));
}

#[test]
fn gem_grab_missed_gem_goes_on() {
    let mut ps = players(1000, 100);
    let mut game = GemGrab::new();
    let step = game.play_turn(&mut ps, GemGrabMove::CollectGem, 0);
    assert!(matches!(step, Step::Inform(ref n) if n.is_empty()));
    assert_eq!(game.gems, (0, 0));
    assert_eq!(game.round_num, 1);
}

#[test]
fn gem_grab_defeat_drops_half_the_gems_rounded_up() {
    let mut ps = players(1000, 100);
    ps.1.state.health = 100;
    let mut game = GemGrab::new();
    game.round_num = 10;
    game.gems = (2, 5);
    let step = game.play_turn(&mut ps, GemGrabMove::General(GeneralMove::Attack), 0);
    match step {
        Step::Inform(n) => {
            assert_eq!(n.len(), 2);
            assert_eq!(n[0].player, PlayerId(1));
            assert_eq!(n[0].message, "Opponent defeated! Respawning next round.");
            assert_eq!(n[1].player, PlayerId(2));
            assert_eq!(n[1].message, "You are defeated! Respawning next round.");
        },
        _ => panic!("expected notices"),
    }
    assert_eq!(game.gems, (2, 2));
    assert_eq!(game.dropped, 3);
    assert_eq!(game.round_num, 11);
    assert_eq!(ps.1.state.status, CharacterStatus::Respawning);
    assert_eq!(ps.1.state.health, 1000);
    assert_eq!(ps.0.state.last_used_ammo, 10);
    assert_eq!(ps.0.state.last_attack_round, 10);
    assert_eq!(ps.1.state.last_attack_round, 10);
}

#[test]
fn gem_grab_respawning_player_sits_out_and_dropped_gems_can_be_taken() {
    let mut ps = players(1000, 100);
    ps.1.state.status = CharacterStatus::Respawning;
    let mut game = GemGrab::new();
    game.round_num = 11;
    game.dropped = 3;
    game.gems = (2, 2);
    let step = game.advance(&mut ps);
    match step {
        Step::Inform(n) => {
            assert_eq!(n.len(), 1);
            assert_eq!(n[0].player, PlayerId(2));
            assert_eq!(n[0].message, "You are respawning!");
        },
        _ => panic!("expected a notice"),
    }
    assert_eq!(game.round_num, 12);
    let moves = game.legal_moves(&ps);
    assert!(moves.contains(&GemGrabMove::CollectDroppedGems));
    assert!(!moves.contains(&GemGrabMove::General(GeneralMove::Attack)));
    let idx = moves.iter().position(|m| *m == GemGrabMove::CollectDroppedGems).unwrap();
    assert!(game.apply_choice(&mut ps, idx).is_ok());
    assert_eq!(game.dropped, 0);
    assert!(game.gems.0 >= 2 && game.gems.0 < 5);
}

#[test]
fn out_of_bounds_choice_is_refused_and_changes_nothing() {
    let mut ps = players(1000, 100);
    ps.0.state.ammo = 1;
    let mut game = GemGrab::new();
    game.round_num = 6;
    let moves = match game.advance(&mut ps) {
        Step::Choose(m) => m,
        _ => panic!("expected a choice"),
    };
    let r = game.apply_choice(&mut ps, moves.len());
    assert!(matches!(r, Err(Error::ResponseError(Some(_)))));
    assert_eq!(game.round_num, 6);
    assert_eq!(ps.0.state.ammo, 1);
    let mut sd = Showdown::new();
    let n = sd.legal_moves(&ps).len();
    assert!(matches!(sd.apply_choice(&mut ps, n), Err(Error::ResponseError(_))));
    assert_eq!(sd.round_num, 0);
}

#[test]
fn round_limit_ends_in_a_draw_told_once() {
    let mut ps = players(1000, 100);
    let mut game = GemGrab::new();
    game.round_num = 150;
    match game.advance(&mut ps) {
        Step::Finished(n, r) => {
            assert_eq!(r, GameResult::Draw);
            assert_eq!(n.len(), 2);
            assert_eq!(n[0].player, PlayerId(1));
            assert_eq!(n[0].message, "Time's up. Match ended in a draw.");
            assert_eq!(n[1].player, PlayerId(2));
        },
        _ => panic!("expected the end"),
    }
    assert!(matches!(game.advance(&mut ps), Step::Finished(ref n, GameResult::Draw) if n.is_empty()));
}

#[test]
fn legal_moves_follow_ammo_and_charge() {
    let mut ps = players(1000, 100);
    let game = GemGrab::new();
    let moves = game.possible_moves(&ps.0, &ps.1);
    assert_eq!(
        moves,
        vec![
            GemGrabMove::General(GeneralMove::Dodge),
            GemGrabMove::CollectGem,
            GemGrabMove::General(GeneralMove::Attack)
        ]
    );
    ps.0.state.ammo = 0;
    ps.0.state.attacks = 3;
    let moves = game.possible_moves(&ps.0, &ps.1);
    assert_eq!(
        moves,
        vec![
            GemGrabMove::General(GeneralMove::Dodge),
            GemGrabMove::CollectGem,
            GemGrabMove::General(GeneralMove::Ult)
        ]
    );
    // Two landed attacks do not charge a super that needs two.
    ps.0.state.attacks = 2;
    assert!(!ps.0.can_super());
    let sd = Showdown::new();
    assert_eq!(
        sd.possible_moves(&ps.0, &ps.1),
        vec![ShowdownMove::General(GeneralMove::Dodge), ShowdownMove::CollectPowerUp]
    );
}

fn drive_gem_grab(ps: &mut Players) -> (GameResult, usize) {
    let mut game = GemGrab::new();
    let mut steps = 0;
    loop {
        steps += 1;
        match game.advance(ps) {
            Step::Choose(_) => {
                game.apply_choice(ps, 0).unwrap();
            },
            Step::Inform(_) => {},
            Step::Finished(_, r) => return (r, steps),
        }
    }
}

#[test]
fn dodging_all_game_times_out() {
    let mut ps = players(1000, 100);
    let (r, steps) = drive_gem_grab(&mut ps);
    assert_eq!(r, GameResult::Draw);
    assert!(steps <= 2 * 151);
}

#[test]
fn showdown_game_always_ends() {
    let mut ps = players(1000, 100);
    let mut game = Showdown::new();
    let mut steps = 0;
    let result = loop {
        steps += 1;
        match game.advance(&mut ps) {
            Step::Choose(_) => {
                game.apply_choice(&mut ps, 0).unwrap();
            },
            Step::Inform(_) => {},
            Step::Finished(_, r) => break r,
        }
    };
    assert!(steps <= 2 * 151);
    assert!(game.round_num <= 150);
    assert!(result.is_draw() || result.is_decisive());
}

#[test]
fn only_gem_grab_and_showdown_can_be_played() {
    assert!(matches!(BattleGameMode { event: Event::GemGrab }.start(), Ok(Battle::GemGrab(_))));
    assert!(matches!(BattleGameMode { event: Event::Showdown }.start(), Ok(Battle::Showdown(_))));
    assert!(matches!(BattleGameMode { event: Event::Heist }.start(), Err(Error::MiscError(_))));
}
