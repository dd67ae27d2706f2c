use mushroom_clicker::battle::{Battle, GameManager, Outcome};
use mushroom_clicker::units::{Mushroom, MushroomUnit};

fn battle() -> Battle {
    Battle::new(500_000, -500_000)
}

fn mushroom_at(id: u64, x: i64) -> MushroomUnit {
    MushroomUnit::spawn(id, Mushroom::new(), x, false)
}

#[test]
fn new_battle_starts_with_fifteen_spores() {
    let b = battle();
    assert_eq!(b.spores, 15);
    assert!(b.mushrooms.is_empty());
    assert!(!b.summoned);
    assert_eq!(b.next_id, 0);
    assert_eq!(b.hero.x, 500_000);
    assert_eq!(b.base_x, -500_000);
    assert_eq!(b.outcome(), Outcome::Running);
}

#[test]
fn idle_frame_moves_hero_and_gives_exp() {
    let mut b = battle();
    b.tick_with_offsets(16, &Vec::new());
    assert_eq!(b.hero.x, 499_840);
    assert_eq!(b.hero.exp, 16);
    assert_eq!(b.hero.attack_timer, 1_000);
    assert!(!b.hero.in_combat);
}

#[test]
fn hero_kills_mushroom_and_rewards_are_paid() {
    let mut b = battle();
    b.mushrooms.push(mushroom_at(0, 480_000));
    b.next_id = 1;
    b.tick_with_offsets(0, &Vec::new());
    assert!(b.mushrooms.is_empty());
    assert_eq!(b.spores, 18);
    assert_eq!(b.hero.exp, 1_000);
    assert!(b.hero.in_combat);
    assert!(b.hero.striking);
    assert_eq!(b.hero.attack_timer, 1_000);
    assert_eq!(b.hero.x, 500_000);
}

#[test]
fn reward_uses_template_spore_count() {
    let mut b = battle();
    b.manager.mushroom_template.spore_count = 9;
    let mut lord = MushroomUnit::spawn(0, Mushroom::lord(0), 480_000, true);
    lord.stats.hp = 0;
    b.mushrooms.push(lord);
    b.reap();
    assert!(b.mushrooms.is_empty());
    assert_eq!(b.spores, 24);
    assert_eq!(b.hero.exp, 0);
}

#[test]
fn mushroom_strikes_hero_when_in_reach() {
    let mut b = battle();
    let mut m = mushroom_at(0, 480_000);
    m.stats.hp = 20_000;
    b.mushrooms.push(m);
    b.tick_with_offsets(0, &Vec::new());
    assert_eq!(b.mushrooms.len(), 1);
    let m = b.mushrooms[0];
    assert_eq!(m.stats.hp, 10_000);
    assert!(m.in_combat);
    assert!(m.lunging);
    assert_eq!(m.attack_timer, 1_000);
    assert_eq!(b.hero.hp, 1_000_000_000 - 100);
}

#[test]
fn mushroom_behind_hero_is_in_reach() {
    let mut b = battle();
    b.mushrooms.push(mushroom_at(0, 900_000));
    b.mushroom_strikes();
    assert!(b.mushrooms[0].in_combat);
    assert_eq!(b.hero.hp, 1_000_000_000 - 100);
}

#[test]
fn lunge_ends_at_half_cooldown() {
    let mut b = battle();
    let mut m = mushroom_at(0, 480_000);
    m.lunging = true;
    m.attack_timer = 600;
    b.mushrooms.push(m);
    b.mushroom_strikes();
    assert!(b.mushrooms[0].lunging);
    b.mushrooms[0].attack_timer = 500;
    b.mushroom_strikes();
    assert!(!b.mushrooms[0].lunging);
    assert_eq!(b.hero.hp, 1_000_000_000);
}

#[test]
fn far_mushrooms_march_and_hero_walks() {
    let mut b = battle();
    b.mushrooms.push(mushroom_at(0, -500_000));
    b.tick_with_offsets(16, &Vec::new());
    assert_eq!(b.mushrooms[0].x, -498_400);
    assert!(!b.mushrooms[0].in_combat);
    assert_eq!(b.hero.x, 499_840);
}

#[test]
fn mushrooms_in_combat_hold_position() {
    let mut b = battle();
    let mut m = mushroom_at(0, 100);
    m.in_combat = true;
    b.mushrooms.push(m);
    b.march(1_000);
    assert_eq!(b.mushrooms[0].x, 100);
}

#[test]
fn hero_at_base_loses_the_game() {
    let mut b = Battle::new(-499_000, -500_000);
    b.tick_with_offsets(0, &Vec::new());
    assert_eq!(b.outcome(), Outcome::Defeat);
    assert!(b.game.game_over);
    assert!(!b.game.victory);
}

#[test]
fn hero_just_outside_base_reach_keeps_going() {
    let mut b = Battle::new(-498_999, -500_000);
    b.hero_strike();
    assert_eq!(b.outcome(), Outcome::Running);
}

#[test]
fn after_game_over_hero_only_leaves_combat() {
    let mut b = battle();
    b.game = GameManager { game_over: true, victory: false };
    b.hero.in_combat = true;
    b.mushrooms.push(mushroom_at(0, 480_000));
    b.hero_strike();
    assert!(!b.hero.in_combat);
    assert_eq!(b.mushrooms[0].stats.hp, 10_000);
    assert_eq!(b.hero.attack_timer, 0);
}

#[test]
fn hero_without_health_gives_victory() {
    let mut b = battle();
    b.hero.hp = 50;
    let mut m = mushroom_at(0, 460_000);
    m.stats.hp = 20_000;
    b.mushrooms.push(m);
    b.tick_with_offsets(0, &Vec::new());
    assert_eq!(b.hero.hp, -50);
    assert_eq!(b.outcome(), Outcome::Victory);
}

#[test]
fn hero_pose_ends_at_half_cooldown() {
    let mut b = battle();
    b.hero.striking = true;
    b.hero.attack_timer = 501;
    b.hero_strike();
    assert!(b.hero.striking);
    b.hero.attack_timer = 500;
    b.hero_strike();
    assert!(!b.hero.striking);
}

#[test]
fn hero_stays_in_combat_until_timer_runs_out() {
    let mut b = battle();
    b.hero.in_combat = true;
    b.hero.attack_timer = 300;
    b.hero_strike();
    assert!(b.hero.in_combat);
    b.hero.attack_timer = 0;
    b.hero_strike();
    assert!(!b.hero.in_combat);
    assert_eq!(b.hero.attack_timer, 1_000);
}

#[test]
fn click_sends_a_wave_near_the_base() {
    let mut b = battle();
    b.manager.spawn_count = 10;
    b.tick(0, true);
    assert_eq!(b.mushrooms.len(), 10);
    assert_eq!(b.spores, 5);
    assert_eq!(b.next_id, 10);
    for (k, m) in b.mushrooms.iter().enumerate() {
        assert_eq!(m.id, k as u64);
        assert!(m.x >= -500_000 && m.x < -495_000, "x = {}", m.x);
        assert_eq!(m.stats, Mushroom::new());
    }
}

#[test]
fn no_click_sends_nothing() {
    let mut b = battle();
    b.tick(0, false);
    assert!(b.mushrooms.is_empty());
    assert_eq!(b.spores, 15);
}

#[test]
fn click_without_spores_sends_nothing() {
    let mut b = battle();
    b.spores = 0;
    b.tick(0, true);
    assert!(b.mushrooms.is_empty());
}

#[test]
fn wave_takes_given_offsets_and_ids_wrap() {
    let mut b = battle();
    b.next_id = u64::MAX;
    b.spawn_wave(&vec![0, 4_999]);
    assert_eq!(b.spores, 13);
    assert_eq!(b.mushrooms[0].id, u64::MAX);
    assert_eq!(b.mushrooms[1].id, 0);
    assert_eq!(b.mushrooms[0].x, -500_000);
    assert_eq!(b.mushrooms[1].x, -495_001);
    assert_eq!(b.next_id, 1);
}

#[test]
fn summon_spends_all_spores_on_the_lord() {
    let mut b = battle();
    b.spores = 1_500;
    assert!(b.summon_ready());
    assert!(b.summon_lord());
    assert_eq!(b.spores, 0);
    assert!(b.summoned);
    let lord = b.mushrooms[0];
    assert!(lord.is_lord);
    assert_eq!(lord.x, -495_000);
    assert_eq!(lord.stats.hp, 1_510_000);
    assert_eq!(lord.stats.atk, 1_510_000);
    assert_eq!(lord.stats.atk_speed, 151_000);
    assert_eq!(b.lord_hp(), Some(1_510_000));
}

#[test]
fn summon_needs_a_thousand_spores() {
    let mut b = battle();
    b.spores = 999;
    assert!(!b.summon_ready());
    assert!(!b.summon_lord());
    assert_eq!(b.spores, 999);
    assert!(b.mushrooms.is_empty());
    assert_eq!(b.lord_hp(), None);
}

#[test]
fn lord_comes_only_once() {
    let mut b = battle();
    b.spores = 1_000;
    assert!(b.summon_lord());
    b.spores = 5_000;
    assert!(!b.summon_lord());
    assert_eq!(b.spores, 5_000);
    assert_eq!(b.mushrooms.len(), 1);
}

#[test]
fn lord_hp_reads_the_lord_among_others() {
    let mut b = battle();
    b.mushrooms.push(mushroom_at(0, 0));
    let mut lord = MushroomUnit::spawn(1, Mushroom::lord(10), 0, true);
    lord.stats.hp = 1234;
    b.mushrooms.push(lord);
    assert_eq!(b.lord_hp(), Some(1234));
}

#[test]
fn timers_count_down_past_zero() {
    let mut b = battle();
    b.hero.attack_timer = 10;
    let mut m = mushroom_at(0, 0);
    m.attack_timer = 500;
    b.mushrooms.push(m);
    b.tick_timers(16);
    assert_eq!(b.hero.attack_timer, -6);
    assert_eq!(b.mushrooms[0].attack_timer, 484);
}

#[test]
fn hero_levels_up_during_a_frame() {
    let mut b = battle();
    b.hero.exp = 199_990;
    b.tick_with_offsets(10, &Vec::new());
    assert_eq!(b.hero.level, 2);
    assert_eq!(b.hero.exp, 0);
    assert_eq!(b.hero.next_level_exp, 400_000);
}

#[test]
fn lord_hp_is_none_with_two_lords() {
    let mut b = battle();
    b.mushrooms.push(MushroomUnit::spawn(0, Mushroom::lord(5), 0, true));
    b.mushrooms.push(mushroom_at(1, 0));
    b.mushrooms.push(MushroomUnit::spawn(2, Mushroom::lord(9), 0, true));
    assert_eq!(b.lord_hp(), None);
}

#[test]
fn frame_reports_hero_blow() {
    let mut b = battle();
    b.mushrooms.push(mushroom_at(0, 480_000));
    assert!(b.tick_with_offsets(0, &Vec::new()));
    let mut b = battle();
    b.mushrooms.push(mushroom_at(0, 480_000));
    b.hero.attack_timer = 500;
    assert!(!b.tick_with_offsets(16, &Vec::new()));
    assert!(b.hero.in_combat);
}

#[test]
fn idle_frame_reports_no_blow() {
    let mut b = battle();
    assert!(!b.tick(16, false));
    assert_eq!(b.hero.attack_timer, 1_000);
}

#[test]
fn no_blow_after_game_over() {
    let mut b = battle();
    b.game = GameManager { game_over: true, victory: true };
    b.mushrooms.push(mushroom_at(0, 480_000));
    assert!(!b.hero_strike());
}
