//! The game's tuning constants.
//!
//! Health, attack, speeds, ranges and experience are fixed-point numbers in
//! thousandths (`1_000` is one unit); speeds are per second. Spores and costs
//! are whole numbers.
use vstd::prelude::*;

verus! {

/// Thousandths in one unit of every fixed-point quantity.
pub const MILLI: i64 = 1_000;

/// Milliseconds in one second.
pub const MS_PER_SECOND: i64 = 1_000;

/// Spores the player starts with.
pub const INITIAL_SPORE_COUNT: u32 = 15;

pub const HERO_BASE_HP: i64 = 1_000_000_000;
pub const HERO_BASE_ATK: i64 = 10_000;
pub const HERO_BASE_MOVE_SPEED: i64 = 10_000;
pub const HERO_BASE_ATK_SPEED: i64 = 1_000;
pub const HERO_BASE_ATK_RANGE: i64 = 50_000;
pub const HERO_BASE_LEVEL: u32 = 1;
pub const HERO_BASE_EXP_REQUIRED: i64 = 200_000;
/// Experience the hero gains per second just by walking.
pub const HERO_EXP_PER_SECOND: i64 = 1_000;
/// The hero has reached the base once it stands this close to it.
pub const HERO_BASE_REACH: i64 = 1_000;

pub const MUSHROOM_BASE_HP: i64 = 10_000;
pub const MUSHROOM_BASE_ATK: i64 = 100;
pub const MUSHROOM_BASE_MOVE_SPEED: i64 = 100_000;
pub const MUSHROOM_BASE_ATK_SPEED: i64 = 1_000;
pub const MUSHROOM_BASE_ATK_RANGE: i64 = 50_000;
pub const MUSHROOM_BASE_SPORE_COUNT: u32 = 3;
pub const MUSHROOM_BASE_EXP_DROP: i64 = 1_000;

/// A new mushroom appears up to this far to the right of the base.
pub const MUSHROOM_SPAWN_OFFSET: i64 = 5_000;

pub const MUSHROOM_LORD_BASE_HP: i64 = 10_000;
pub const MUSHROOM_LORD_BASE_ATK: i64 = 10_000;
pub const MUSHROOM_LORD_BASE_MOVE_SPEED: i64 = 100_000;
pub const MUSHROOM_LORD_BASE_ATK_SPEED: i64 = 1_000;
pub const MUSHROOM_LORD_BASE_ATK_RANGE: i64 = 100_000;
pub const MUSHROOM_LORD_BASE_SPORE_COUNT: u32 = 0;
pub const MUSHROOM_LORD_BASE_EXP_DROP: i64 = 0;
/// What each spore spent on the summon adds to the Lord's stats.
pub const MUSHROOM_LORD_HP_PER_SPORE: i64 = 1_000;
pub const MUSHROOM_LORD_ATK_PER_SPORE: i64 = 1_000;
pub const MUSHROOM_LORD_MOVE_SPEED_PER_SPORE: i64 = 0;
pub const MUSHROOM_LORD_ATK_SPEED_PER_SPORE: i64 = 100;
pub const MUSHROOM_LORD_ATK_RANGE_PER_SPORE: i64 = 0;
/// The Lord appears this far to the right of the base.
pub const MUSHROOM_LORD_SPAWN_OFFSET: i64 = 5_000;

pub const UPGRADE_SPORE_COUNT_BASE_COST: u32 = 10;
pub const UPGRADE_MUSHROOMS_PER_CLICK_BASE_COST: u32 = 100;
pub const UPGRADE_MUSHROOM_HP_BASE_COST: u32 = 500;
pub const UPGRADE_MUSHROOM_ATK_BASE_COST: u32 = 100;
pub const UPGRADE_MUSHROOM_ATK_SPEED_BASE_COST: u32 = 10;
pub const UPGRADE_MUSHROOM_MOVE_SPEED_BASE_COST: u32 = 100;

pub const UPGRADE_COST_BASE_MULTIPLIER: u32 = 2;
pub const UPGRADE_COST_SPORE_COUNT_MULTIPLIER: u32 = 3;
pub const UPGRADE_COST_MUSHROOMS_PER_CLICK_MULTIPLIER: u32 = 3;

/// The Lord can be summoned once the player holds this many spores.
pub const SUMMON_MINIMUM_SPORE_COUNT: u32 = 1_000;

pub const BASE_MUSHROOMS_PER_CLICK: u32 = 1;

} // verus!
