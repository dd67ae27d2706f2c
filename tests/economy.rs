use mushroom_clicker::battle::Battle;
use mushroom_clicker::economy::{mul_sat, MushroomManager, UpgradeButton, UpgradeType};
use mushroom_clicker::units::Mushroom;

#[test]
fn upgrade_buttons_start_at_their_base_prices() {
    let cases = [
        (UpgradeType::SporeCount, 10, 3),
        (UpgradeType::MushroomsPerClick, 100, 3),
        (UpgradeType::HP, 500, 2),
        (UpgradeType::ATK, 100, 2),
        (UpgradeType::AtkSpeed, 10, 2),
        (UpgradeType::MoveSpeed, 100, 2),
    ];
    for (kind, cost, mult) in cases {
        let b = UpgradeButton::new(kind);
        assert_eq!(b.upgrade_type, kind);
        assert_eq!(b.cost, cost);
        assert_eq!(b.cost_multiplier, mult);
    }
}

#[test]
fn spore_count_upgrade_adds_hero_level() {
    let mut battle = Battle::new(500_000, -500_000);
    battle.hero.level = 4;
    let mut button = UpgradeButton::new(UpgradeType::SporeCount);
    assert!(battle.purchase(&mut button));
    assert_eq!(battle.spores, 5);
    assert_eq!(button.cost, 30);
    assert_eq!(battle.manager.mushroom_template.spore_count, 7);
}

#[test]
fn purchase_without_enough_spores_changes_nothing() {
    let mut battle = Battle::new(500_000, -500_000);
    let mut button = UpgradeButton::new(UpgradeType::HP);
    assert!(!battle.purchase(&mut button));
    assert_eq!(battle.spores, 15);
    assert_eq!(button.cost, 500);
    assert_eq!(battle.manager, MushroomManager::new());
}

#[test]
fn purchase_at_exact_price_succeeds() {
    let mut battle = Battle::new(500_000, -500_000);
    battle.spores = 100;
    let mut button = UpgradeButton::new(UpgradeType::MushroomsPerClick);
    assert!(battle.purchase(&mut button));
    assert_eq!(battle.spores, 0);
    assert_eq!(battle.manager.spawn_count, 2);
    assert_eq!(button.cost, 300);
}

#[test]
fn stat_upgrades_add_base_values() {
    let mut battle = Battle::new(500_000, -500_000);
    battle.spores = 10_000;
    let mut hp = UpgradeButton::new(UpgradeType::HP);
    let mut atk = UpgradeButton::new(UpgradeType::ATK);
    let mut atk_speed = UpgradeButton::new(UpgradeType::AtkSpeed);
    let mut move_speed = UpgradeButton::new(UpgradeType::MoveSpeed);
    assert!(battle.purchase(&mut hp));
    assert!(battle.purchase(&mut atk));
    assert!(battle.purchase(&mut atk_speed));
    assert!(battle.purchase(&mut move_speed));
    assert!(battle.purchase(&mut atk_speed));
    let t = battle.manager.mushroom_template;
    assert_eq!(t.hp, 20_000);
    assert_eq!(t.atk, 200);
    assert_eq!(t.atk_speed, 3_000);
    assert_eq!(t.move_speed, 200_000);
    assert_eq!(atk_speed.cost, 40);
    assert_eq!(battle.spores, 10_000 - 500 - 100 - 10 - 100 - 20);
}

#[test]
fn price_stops_at_the_top_of_its_range() {
    let mut battle = Battle::new(500_000, -500_000);
    battle.spores = u32::MAX;
    let mut button = UpgradeButton::new(UpgradeType::ATK);
    button.cost = 3_000_000_000;
    assert!(battle.purchase(&mut button));
    assert_eq!(button.cost, u32::MAX);
    assert_eq!(battle.spores, u32::MAX - 3_000_000_000);
}

#[test]
fn saturating_multiplication() {
    assert_eq!(mul_sat(7, 6), 42);
    assert_eq!(mul_sat(0, u32::MAX), 0);
    assert_eq!(mul_sat(65_536, 65_536), u32::MAX);
}

#[test]
fn manager_starts_with_base_template() {
    let m = MushroomManager::default();
    assert_eq!(m.spawn_count, 1);
    assert_eq!(m.mushroom_template, Mushroom::new());
    assert_eq!(Mushroom::default().hp, 10_000);
    assert_eq!(Mushroom::default().atk, 100);
    assert_eq!(Mushroom::default().spore_count, 3);
}

#[test]
fn wave_size_is_capped_by_spores() {
    let mut battle = Battle::new(500_000, -500_000);
    assert_eq!(battle.wave_size(), 1);
    battle.manager.spawn_count = 20;
    assert_eq!(battle.wave_size(), 15);
    battle.spores = 0;
    assert_eq!(battle.wave_size(), 0);
}

#[test]
fn spore_yield_and_wave_size_stop_at_the_top() {
    let mut battle = Battle::new(500_000, -500_000);
    battle.spores = u32::MAX;
    battle.hero.level = 10;
    battle.manager.mushroom_template.spore_count = u32::MAX - 3;
    battle.manager.spawn_count = u32::MAX;
    let mut yield_button = UpgradeButton::new(UpgradeType::SporeCount);
    let mut click_button = UpgradeButton::new(UpgradeType::MushroomsPerClick);
    assert!(battle.purchase(&mut yield_button));
    assert!(battle.purchase(&mut click_button));
    assert_eq!(battle.manager.mushroom_template.spore_count, u32::MAX);
    assert_eq!(battle.manager.spawn_count, u32::MAX);
}
