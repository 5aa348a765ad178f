use brawl_engine::model::brawler::{
    Attack, Brawler, ChromaticSeason, Gadget, Rarity, StarPower, Ult,
};
use brawl_engine::resource::bs_box::{
    add_brawlers, add_gadgets, get_valid_rarity, handle_two_variants, BoxItem, BoxOdds,
    BoxRewards, BrawlerData, BsBox, PlayerStats, TwoVariantsInfo, UnlockableRarity,
    UnlockedGadgets, UnlockedStarPowers,
};
use brawl_engine::resource::power_points::PowerPoints;
use brawl_engine::utils::rng::{split_in_integers, weighted_random};

fn content_brawler(name: &str, rarity: Rarity) -> Brawler {
    Brawler {
        name: String::from(name),
        health: 3000,
        speed: 720,
        rarity,
        attack: Attack {
            name: String::from("Shot"),
            damage: 300,
            description: String::new(),
            max_ammo: 3,
            range: 77,
            reload: 15,
            projectiles: 5,
            descriptor: None,
        },
        ult: Ult {
            name: String::from("Super"),
            damage: Some(320),
            description: String::new(),
            range: Some(77),
            projectiles: 9,
            hits_required: 3,
            descriptor: None,
            spawn: None,
        },
        gadget1: Gadget { name: String::new(), description: String::new() },
        gadget2: Gadget { name: String::new(), description: String::new() },
        sp1: StarPower { name: String::new(), description: String::new() },
        sp2: StarPower { name: String::new(), description: String::new() },
        skins: Vec::new(),
    }
}

#[test]
fn split_adds_up() {
    for _ in 0..20 {
        let parts = split_in_integers(100, 4, 3);
        assert_eq!(parts.len(), 4);
        assert_eq!(parts.iter().sum::<u32>(), 100);
        assert!(parts.iter().all(|p| *p >= 3));
    }
    assert!(split_in_integers(10, 4, 3).is_empty());
    assert!(split_in_integers(10, 0, 1).is_empty());
    assert_eq!(split_in_integers(12, 4, 3), vec![3, 3, 3, 3]);
    assert_eq!(split_in_integers(0, 3, 0), vec![0, 0, 0]);
}

#[test]
fn weighted_random_stays_in_bounds() {
    for _ in 0..50 {
        let v = weighted_random(7, 25, 14);
        assert!((7..=25).contains(&v));
    }
}

#[test]
fn valid_rarity_goes_down() {
    let unlockable = vec![
        (UnlockableRarity::Epic, String::from("Bo")),
        (UnlockableRarity::Rare, String::from("Colt")),
    ];
    assert_eq!(get_valid_rarity(UnlockableRarity::Legendary, &unlockable), Some(UnlockableRarity::Epic));
    assert_eq!(get_valid_rarity(UnlockableRarity::SuperRare, &unlockable), Some(UnlockableRarity::Rare));
    assert_eq!(get_valid_rarity(UnlockableRarity::Rare, &Vec::new()), None);
    assert_eq!(
        UnlockableRarity::from_rarity(Rarity::Chromatic(ChromaticSeason::Second)),
        Some(UnlockableRarity::Mythic)
    );
    assert_eq!(UnlockableRarity::from_rarity(Rarity::TrophyRoad(6)), None);
}

#[test]
fn brawlers_come_from_the_valid_rarity() {
    let mut unlockable = vec![
        (UnlockableRarity::Epic, String::from("Bo")),
        (UnlockableRarity::Rare, String::from("Colt")),
    ];
    let mut rewards = BoxRewards::with_gold(0);
    let missed = add_brawlers(
        vec![UnlockableRarity::Mythic, UnlockableRarity::Rare, UnlockableRarity::Rare],
        &mut unlockable,
        &mut rewards,
    );
    assert_eq!(missed, 1);
    assert_eq!(rewards.brawlers, vec![String::from("Bo"), String::from("Colt")]);
    assert!(unlockable.is_empty());
}

#[test]
fn rewards_accumulate_per_brawler() {
    let mut rewards = BoxRewards::with_gold(5);
    rewards.add_power_points(String::from("Bo"), PowerPoints(10));
    rewards.add_power_points(String::from("Bo"), PowerPoints(15));
    rewards.add_power_points(String::from("Colt"), PowerPoints(1));
    assert_eq!(rewards.power_points.len(), 2);
    assert_eq!(rewards.power_points[0].1, PowerPoints(25));
    let mut g = UnlockedGadgets(TwoVariantsInfo::new(true, false));
    rewards.add_gadgets(String::from("Bo"), g);
    g.set_first(false);
    g.set_second(true);
    rewards.add_gadgets(String::from("Bo"), g);
    assert!(rewards.gadgets[0].1.first() && rewards.gadgets[0].1.second());
    let mut sp = UnlockedStarPowers(TwoVariantsInfo::new(false, false));
    sp.set_second(true);
    rewards.add_star_powers(String::from("Bo"), sp);
    assert!(!rewards.star_powers[0].1.first() && rewards.star_powers[0].1.second());
    rewards.add_brawler(String::from("Nita"));
    rewards.add_token_doublers(200);
    rewards.add_token_doublers(200);
    assert_eq!(rewards.token_doublers, Some(400));
    assert_eq!(rewards.gold, 5);
}

#[test]
fn two_variants_are_handed_out_one_at_a_time() {
    let mut mapping = vec![(String::from("Bo"), TwoVariantsInfo::new(true, true))];
    let (name, first) = handle_two_variants(&mut mapping).unwrap();
    assert_eq!(name, "Bo");
    assert!(first.first != first.second);
    assert_eq!(mapping.len(), 1);
    let (_, second) = handle_two_variants(&mut mapping).unwrap();
    assert!(second.first != first.first);
    assert!(mapping.is_empty());
    assert!(handle_two_variants(&mut mapping).is_none());
    let mut rewards = BoxRewards::with_gold(0);
    let mut gadgets = vec![(String::from("Bo"), TwoVariantsInfo::new(false, true))];
    assert_eq!(add_gadgets(3, &mut gadgets, &mut rewards), 2);
    assert!(rewards.gadgets[0].1.second());
}

#[test]
fn unlockable_data_of_a_player() {
    let all = vec![
        content_brawler("Shelly", Rarity::TrophyRoad(0)),
        content_brawler("Bo", Rarity::Epic),
        content_brawler("Colt", Rarity::Rare),
    ];
    let owned = vec![
        BrawlerData::new(String::from("Colt"), 9, 0, true, false, false, false),
        BrawlerData::new(String::from("Shelly"), 8, 1000, false, false, false, false),
    ];
    let stats = PlayerStats::new(&all, &owned);
    let data = stats.get_unlockable_data();
    assert_eq!(data.brawlers, vec![(UnlockableRarity::Epic, String::from("Bo"))]);
    assert_eq!(data.power_points, vec![(String::from("Colt"), 0u32)].into_iter().filter(|_| false).collect::<Vec<_>>());
    assert_eq!(data.gadgets.len(), 2);
    assert_eq!(data.gadgets[0].1, TwoVariantsInfo::new(false, true));
    assert_eq!(data.star_powers, vec![(String::from("Colt"), TwoVariantsInfo::new(true, true))]);
}

#[test]
fn opening_a_box() {
    let all = vec![content_brawler("Bo", Rarity::Epic), content_brawler("Colt", Rarity::Rare)];
    let owned = vec![
        BrawlerData::new(String::from("Colt"), 3, 5, false, false, false, false),
        BrawlerData::new(String::from("Bo"), 1, 0, false, false, false, false),
    ];
    for _ in 0..20 {
        let rewards = BsBox::mega_box().open(PlayerStats::new(&all, &owned));
        assert!(rewards.gold >= 6 && rewards.gold <= 210);
        assert!(rewards.token_doublers.is_none() || rewards.token_doublers == Some(200));
        let given: u32 = rewards.power_points.iter().map(|(_, p)| p.0).sum();
        assert!(given <= 225);
    }
    let rewards = BsBox::brawl_box().open(PlayerStats::new(&all, &[]));
    assert!(rewards.gold >= 36 && rewards.gold <= 210);
    assert!(rewards.power_points.is_empty());
}

#[test]
fn items_follow_the_odds() {
    let mut odds = BoxOdds::new();
    odds.power_points = 0;
    odds.rare = 0;
    odds.super_rare = 0;
    odds.epic = 0;
    odds.mythic = 0;
    odds.legendary = 0;
    odds.gadget = 0;
    let items = BoxItem::select_items(&odds, 9);
    assert_eq!(items.len(), 9);
    assert!(items.iter().all(|i| *i == BoxItem::StarPower));
    assert_eq!(BoxOdds::new().get_rarity_odds(Rarity::Chromatic(ChromaticSeason::First)), 1115);
    assert_eq!(BoxOdds::new().get_rarity_odds(Rarity::TrophyRoad(1)), 0);
}
