use brawl_engine::gameplay::battle_log::{BattleLogEntry, PlayerBrawlerLogEntry, PlayerLogEntry};
use brawl_engine::gameplay::player::PlayerId;
use brawl_engine::model::brawler::{ChromaticSeason, Rarity, SkinType};
use brawl_engine::model::game_mode::{Event, EventType, GameMode};
use brawl_engine::model::trophy_road::{TrophyRoad, TrophyRoadReward, TrophyRoadRewardKind};
use brawl_engine::resource::bs_box::{BoxType, BsBox};
use brawl_engine::utils::rng::select_one;
use brawl_engine::utils::tiers::{Level, LevelManager, Rank, RankManager};

#[test]
fn rarity_lowers_one_step() {
    assert_eq!(Rarity::Legendary.lower(), Some(Rarity::Mythic));
    assert_eq!(Rarity::SuperRare.lower(), Some(Rarity::Rare));
    assert_eq!(Rarity::Rare.lower(), None);
    assert_eq!(Rarity::TrophyRoad(8).lower(), None);
    assert_eq!(Rarity::Chromatic(ChromaticSeason::First).lower(), None);
}

#[test]
fn skin_types() {
    assert!(SkinType::Free.is_free());
    assert!(SkinType::Gem.is_gem());
    assert!(SkinType::StarToken.is_star_token());
    assert!(!SkinType::Gem.is_free());
}

#[test]
fn event_types() {
    assert_eq!(Event::Showdown.get_event_type(), EventType::Individual);
    assert_eq!(Event::GemGrab.get_event_type(), EventType::Team);
    assert_eq!(GameMode::new(Event::Heist, None).get_event_type(), EventType::Team);
}

#[test]
fn trophy_road_codes_round_trip() {
    for code in [1u8, 3, 6, 9, 10, 12, 13, 14] {
        assert_eq!(TrophyRoadRewardKind::from_code(code).unwrap().to_code(), Some(code));
    }
    assert!(TrophyRoadRewardKind::from_code(2).is_none());
    assert!(matches!(TrophyRoadRewardKind::from_code(14), Some(TrophyRoadRewardKind::BsBox(BoxType::Big))));
}

#[test]
fn trophy_road_collectables() {
    let road = TrophyRoad::new(vec![
        TrophyRoadReward::new(10, TrophyRoadRewardKind::Gold, 20, String::new()),
        TrophyRoadReward::new(50, TrophyRoadRewardKind::Brawler, 1, String::from("Nita")),
        TrophyRoadReward::new(30, TrophyRoadRewardKind::PowerPoints, 25, String::new()),
    ]);
    let got: Vec<u32> = road.collectables(30).iter().map(|r| r.trophies).collect();
    assert_eq!(got, vec![10, 30]);
    assert!(road.can_collect(0, 10));
    assert!(!road.can_collect(1, 49));
    assert!(!road.can_collect(3, 1000));
}

#[test]
fn boxes() {
    assert!(matches!(BsBox::brawl_box().box_type, BoxType::Brawl));
    assert!(matches!(BsBox::big_box().box_type, BoxType::Big));
    assert!(matches!(BsBox::mega_box().box_type, BoxType::Mega));
    assert_eq!(BoxType::Mega.box_data().total, 9);
}

#[test]
fn select_one_picks_a_positive_weight() {
    for _ in 0..20 {
        assert_eq!(select_one(&[10, 20], &[0, 5]), Some(&20));
    }
    assert_eq!(select_one(&[10, 20], &[0, 0]), None);
    assert_eq!(select_one(&[10], &[1, 1]), None);
    let empty: [u8; 0] = [];
    assert_eq!(select_one(&empty, &[]), None);
}

#[test]
fn tiers_follow_each_other() {
    let levels = LevelManager::from_sorted(vec![Level::new(0, 20, 20), Level::new(20, 30, 35)]);
    assert!(levels.is_valid());
    assert_eq!(levels.level_up_cost(2), Some(35));
    assert_eq!(levels.level_up_cost(0), None);
    assert_eq!(levels.level_up_cost(3), None);
    assert_eq!(levels.tier_from_units(25).unwrap().start, 20);
    assert!(levels.tier_from_units(50).is_none());
    let ranks = RankManager::from_sorted(vec![Rank::new(0, 10, 1, 0), Rank::new(11, 10, 1, 0)]);
    assert!(!ranks.is_valid());
    assert!(RankManager::try_from_sorted(vec![Rank::new(0, 10, 1, 0)]).is_some());
    assert!(Rank::new(0, 10, 1, 0).can_advance(10));
    assert_eq!(Rank::new(5, 10, 1, 0).end(), 15);
}

#[test]
fn battle_log_entries() {
    let b = PlayerBrawlerLogEntry::new(String::from("Shelly"), 3, 120);
    let p = PlayerLogEntry::new(PlayerId(4), b, 8, true);
    assert_eq!(p.brawler_entry.level, 3);
    let e = BattleLogEntry::new(vec![p], String::from("Gem Grab"));
    assert_eq!(e.players.len(), 1);
    assert!(e.timestamp > 0);
}

#[test]
fn event_names() {
    assert_eq!(Event::GemGrab.to_string(), "Gem Grab");
    assert_eq!(Event::HotZone.to_string(), "Hot Zone");
}
