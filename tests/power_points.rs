use brawl_engine::resource::power_points::PowerPoints;

#[test]
fn test_power_points_required() {
    assert_eq!(PowerPoints(PowerPoints::LEVEL_TWO), PowerPoints::power_points_required(2));
    assert_eq!(PowerPoints(PowerPoints::LEVEL_NINE), PowerPoints::power_points_required(9));
    assert_eq!(PowerPoints(0), PowerPoints::power_points_required(0));
    assert_eq!(PowerPoints(0), PowerPoints::power_points_required(10));
    assert_eq!(PowerPoints(0), PowerPoints::power_points_required(11));
}

#[test]
fn test_max_power_points() {
    assert_eq!(PowerPoints(1410), PowerPoints::max_power_points());
}

#[test]
fn test_max_at_level() {
    assert_eq!(PowerPoints(0), PowerPoints::max_at_level(0));
    assert_eq!(PowerPoints(20), PowerPoints::max_at_level(1));
    assert_eq!(PowerPoints(100), PowerPoints::max_at_level(3));
    assert_eq!(PowerPoints(1410), PowerPoints::max_at_level(8));
    assert_eq!(PowerPoints(1410), PowerPoints::max_at_level(9));
}

#[test]
fn test_to_next_level() {
    assert_eq!(PowerPoints(20), PowerPoints(0).to_next_level());
    assert_eq!(PowerPoints(10), PowerPoints(10).to_next_level());
    assert_eq!(PowerPoints(40), PowerPoints(60).to_next_level());
    assert_eq!(
        PowerPoints(1),
        PowerPoints(PowerPoints::max_power_points().0 - 1).to_next_level()
    );
    assert_eq!(PowerPoints(0), PowerPoints::max_power_points().to_next_level());
}

#[test]
fn max_at_level_saturates_past_the_last_upgrade() {
    assert_eq!(PowerPoints(1410), PowerPoints::max_at_level(255));
    assert_eq!(PowerPoints(50), PowerPoints::max_at_level(2));
}

#[test]
fn total_and_level_specific_round_trip() {
    let total = PowerPoints(7).to_total(3);
    assert_eq!(PowerPoints(107), total);
    assert_eq!(PowerPoints(7), total.to_level_specific(3));
    assert_eq!(PowerPoints(120), PowerPoints::total_from(PowerPoints(20), 3));
    assert_eq!(PowerPoints(0), PowerPoints::level_specific_from(PowerPoints(20), 1));
}

#[test]
fn can_upgrade_below_level_nine_only() {
    assert!(PowerPoints(100).can_upgrade(3));
    assert!(!PowerPoints(101).can_upgrade(3));
    assert!(!PowerPoints(0).can_upgrade(9));
    assert_eq!(PowerPoints(5), PowerPoints::from(5u32));
}
