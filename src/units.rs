//! The two kinds of fighter: the hero, and the mushrooms the player sends.
use vstd::prelude::*;

use crate::fixed::{clamp64, saturate, sub_sat};
use crate::rules::{
    HERO_BASE_ATK, HERO_BASE_ATK_RANGE, HERO_BASE_ATK_SPEED, HERO_BASE_EXP_REQUIRED,
    HERO_BASE_HP, HERO_BASE_LEVEL, HERO_BASE_MOVE_SPEED, MUSHROOM_BASE_ATK,
    MUSHROOM_BASE_ATK_RANGE, MUSHROOM_BASE_ATK_SPEED, MUSHROOM_BASE_EXP_DROP, MUSHROOM_BASE_HP,
    MUSHROOM_BASE_MOVE_SPEED, MUSHROOM_BASE_SPORE_COUNT, MUSHROOM_LORD_ATK_PER_SPORE,
    MUSHROOM_LORD_ATK_RANGE_PER_SPORE, MUSHROOM_LORD_ATK_SPEED_PER_SPORE, MUSHROOM_LORD_BASE_ATK,
    MUSHROOM_LORD_BASE_ATK_RANGE, MUSHROOM_LORD_BASE_ATK_SPEED, MUSHROOM_LORD_BASE_EXP_DROP,
    MUSHROOM_LORD_BASE_HP, MUSHROOM_LORD_BASE_MOVE_SPEED, MUSHROOM_LORD_BASE_SPORE_COUNT,
    MUSHROOM_LORD_HP_PER_SPORE, MUSHROOM_LORD_MOVE_SPEED_PER_SPORE,
};

verus! {

/// Milliseconds between two attacks at `atk_speed` attacks per second
/// (in thousandths), rounded up, so that attacks never come more often than
/// the rate allows.
pub open spec fn cooldown(atk_speed: i64) -> int
    recommends
        atk_speed > 0,
{
    (1_000_000int + atk_speed - 1) / (atk_speed as int)
}

/// Computes `cooldown`.
pub fn cooldown_ms(atk_speed: i64) -> (r: i64)
    requires
        atk_speed > 0,
    ensures
        r == cooldown(atk_speed),
        0 <= r <= 1_000_000,
        r * atk_speed >= 1_000_000,
{
    let n: i128 = 1_000_000 + atk_speed as i128 - 1;
    let d: i128 = atk_speed as i128;
    assert(0 <= n / d <= 1_000_000 && (n / d) * d >= 1_000_000) by (nonlinear_arith)
        requires
            d >= 1,
            n == 999_999 + d,
    ;
    (n / d) as i64
}

/// An attack timer after `elapsed_ms` more milliseconds: it counts down
/// past zero, held to the range of `i64`. A timer at zero or below means
/// "ready".
pub open spec fn countdown(timer: i64, elapsed_ms: u32) -> i64 {
    clamp64(timer - elapsed_ms) as i64
}

/// Computes `countdown`.
pub fn countdown_exec(timer: i64, elapsed_ms: u32) -> (r: i64)
    ensures
        r == countdown(timer, elapsed_ms),
{
    sub_sat(timer, elapsed_ms as i64)
}

/// The stats of one mushroom; also the template that new mushrooms copy.
#[derive(Clone, Copy, Debug, PartialEq, Eq, Structural)]
pub struct Mushroom {
    pub hp: i64,
    pub atk: i64,
    pub move_speed: i64,
    pub atk_speed: i64,
    pub atk_range: i64,
    /// Spores a fallen mushroom is worth, read from the spawning template.
    pub spore_count: u32,
    pub xp_drop: i64,
}

impl Mushroom {
    /// Attacks have a positive rate and nobody walks backwards.
    pub open spec fn wf(&self) -> bool {
        &&& self.atk_speed > 0
        &&& self.move_speed >= 0
    }

    pub open spec fn base() -> Mushroom {
        Mushroom {
            hp: MUSHROOM_BASE_HP,
            atk: MUSHROOM_BASE_ATK,
            move_speed: MUSHROOM_BASE_MOVE_SPEED,
            atk_speed: MUSHROOM_BASE_ATK_SPEED,
            atk_range: MUSHROOM_BASE_ATK_RANGE,
            spore_count: MUSHROOM_BASE_SPORE_COUNT,
            xp_drop: MUSHROOM_BASE_EXP_DROP,
        }
    }

    /// The stats of a Mushroom Lord summoned with `spores` spores: each base
    /// stat grows by its per-spore amount times the spores spent.
    pub open spec fn lord_spec(spores: u32) -> Mushroom {
        Mushroom {
            hp: (MUSHROOM_LORD_BASE_HP + MUSHROOM_LORD_HP_PER_SPORE * spores) as i64,
            atk: (MUSHROOM_LORD_BASE_ATK + MUSHROOM_LORD_ATK_PER_SPORE * spores) as i64,
            move_speed: (MUSHROOM_LORD_BASE_MOVE_SPEED + MUSHROOM_LORD_MOVE_SPEED_PER_SPORE
                * spores) as i64,
            atk_speed: (MUSHROOM_LORD_BASE_ATK_SPEED + MUSHROOM_LORD_ATK_SPEED_PER_SPORE
                * spores) as i64,
            atk_range: (MUSHROOM_LORD_BASE_ATK_RANGE + MUSHROOM_LORD_ATK_RANGE_PER_SPORE
                * spores) as i64,
            spore_count: MUSHROOM_LORD_BASE_SPORE_COUNT,
            xp_drop: MUSHROOM_LORD_BASE_EXP_DROP,
        }
    }

    /// A plain mushroom with the base stats.
    pub fn new() -> (r: Mushroom)
        ensures
            r == Mushroom::base(),
            r.wf(),
    {
        Mushroom {
            hp: MUSHROOM_BASE_HP,
            atk: MUSHROOM_BASE_ATK,
            move_speed: MUSHROOM_BASE_MOVE_SPEED,
            atk_speed: MUSHROOM_BASE_ATK_SPEED,
            atk_range: MUSHROOM_BASE_ATK_RANGE,
            spore_count: MUSHROOM_BASE_SPORE_COUNT,
            xp_drop: MUSHROOM_BASE_EXP_DROP,
        }
    }

    /// The stats of a Mushroom Lord summoned with `spores` spores.
    pub fn lord(spores: u32) -> (r: Mushroom)
        ensures
            r == Mushroom::lord_spec(spores),
            r.wf(),
    {
        let s = spores as i64;
        Mushroom {
            hp: MUSHROOM_LORD_BASE_HP + MUSHROOM_LORD_HP_PER_SPORE * s,
            atk: MUSHROOM_LORD_BASE_ATK + MUSHROOM_LORD_ATK_PER_SPORE * s,
            move_speed: MUSHROOM_LORD_BASE_MOVE_SPEED + MUSHROOM_LORD_MOVE_SPEED_PER_SPORE * s,
            atk_speed: MUSHROOM_LORD_BASE_ATK_SPEED + MUSHROOM_LORD_ATK_SPEED_PER_SPORE * s,
            atk_range: MUSHROOM_LORD_BASE_ATK_RANGE + MUSHROOM_LORD_ATK_RANGE_PER_SPORE * s,
            spore_count: MUSHROOM_LORD_BASE_SPORE_COUNT,
            xp_drop: MUSHROOM_LORD_BASE_EXP_DROP,
        }
    }
}

impl Default for Mushroom {
    fn default() -> (r: Mushroom)
        ensures
            r == Mushroom::base(),
    {
        Mushroom::new()
    }
}

/// The hero: its stats, where it stands and how its fight goes.
#[derive(Clone, Copy, Debug, PartialEq, Eq, Structural)]
pub struct Hero {
    pub hp: i64,
    pub atk: i64,
    pub move_speed: i64,
    pub atk_speed: i64,
    pub atk_range: i64,
    pub level: u32,
    pub exp: i64,
    pub next_level_exp: i64,
    /// Position along the lane, in thousandths.
    pub x: i64,
    /// Milliseconds until the next attack; ready at zero or below.
    pub attack_timer: i64,
    pub in_combat: bool,
    /// Whether the hero shows its attack pose.
    pub striking: bool,
}

impl Hero {
    pub open spec fn wf(&self) -> bool {
        &&& self.level >= 1
        &&& self.atk_speed > 0
        &&& self.move_speed >= 0
    }

    /// The hero's stats at `level`: every base stat times the level.
    pub open spec fn leveled(self, level: u32) -> Hero {
        Hero {
            hp: (HERO_BASE_HP * level) as i64,
            atk: (HERO_BASE_ATK * level) as i64,
            move_speed: (HERO_BASE_MOVE_SPEED * level) as i64,
            atk_speed: (HERO_BASE_ATK_SPEED * level) as i64,
            atk_range: (HERO_BASE_ATK_RANGE * level) as i64,
            level,
            next_level_exp: (HERO_BASE_EXP_REQUIRED * level) as i64,
            ..self
        }
    }

    /// A level-one hero standing at `x`, ready to attack.
    pub open spec fn spawn_spec(x: i64) -> Hero {
        Hero {
            hp: HERO_BASE_HP,
            atk: HERO_BASE_ATK,
            move_speed: HERO_BASE_MOVE_SPEED,
            atk_speed: HERO_BASE_ATK_SPEED,
            atk_range: HERO_BASE_ATK_RANGE,
            level: HERO_BASE_LEVEL,
            exp: 0,
            next_level_exp: HERO_BASE_EXP_REQUIRED,
            x,
            attack_timer: 0,
            in_combat: false,
            striking: false,
        }
    }

    /// The hero after gaining `amount` experience: once it has at least what
    /// the next level needs, it starts over at zero one level up, with its
    /// stats recomputed for that level. The level stops at `u32::MAX`.
    pub open spec fn gain_spec(self, amount: int) -> Hero {
        let exp = clamp64(self.exp + amount) as i64;
        if exp >= self.next_level_exp {
            let level = if self.level < u32::MAX { (self.level + 1) as u32 } else { self.level };
            Hero { exp: 0, ..self.leveled(level) }
        } else {
            Hero { exp, ..self }
        }
    }

    pub fn spawn(x: i64) -> (r: Hero)
        ensures
            r == Hero::spawn_spec(x),
            r.wf(),
    {
        Hero {
            hp: HERO_BASE_HP,
            atk: HERO_BASE_ATK,
            move_speed: HERO_BASE_MOVE_SPEED,
            atk_speed: HERO_BASE_ATK_SPEED,
            atk_range: HERO_BASE_ATK_RANGE,
            level: HERO_BASE_LEVEL,
            exp: 0,
            next_level_exp: HERO_BASE_EXP_REQUIRED,
            x,
            attack_timer: 0,
            in_combat: false,
            striking: false,
        }
    }

    /// Adds `amount` experience and levels up when enough has gathered.
    pub fn gain_exp(&mut self, amount: i64)
        requires
            old(self).wf(),
        ensures
            *final(self) == old(self).gain_spec(amount as int),
            final(self).wf(),
    {
        let exp = saturate(self.exp as i128 + amount as i128);
        if exp >= self.next_level_exp {
            let level = self.level.saturating_add(1);
            let l = level as i64;
            proof {
                assert(HERO_BASE_HP * l <= i64::MAX) by (nonlinear_arith)
                    requires l <= u32::MAX;
            }
            self.hp = HERO_BASE_HP * l;
            self.atk = HERO_BASE_ATK * l;
            self.move_speed = HERO_BASE_MOVE_SPEED * l;
            self.atk_speed = HERO_BASE_ATK_SPEED * l;
            self.atk_range = HERO_BASE_ATK_RANGE * l;
            self.level = level;
            self.next_level_exp = HERO_BASE_EXP_REQUIRED * l;
            self.exp = 0;
        } else {
            self.exp = exp;
        }
    }
}

/// One mushroom on the field.
#[derive(Clone, Copy, Debug, PartialEq, Eq, Structural)]
pub struct MushroomUnit {
    /// Tells mushrooms apart while they live; given out in spawn order.
    pub id: u64,
    pub stats: Mushroom,
    /// Position along the lane, in thousandths.
    pub x: i64,
    /// Milliseconds until the next attack; ready at zero or below.
    pub attack_timer: i64,
    pub in_combat: bool,
    /// Whether the mushroom shows its lunge after an attack.
    pub lunging: bool,
    pub is_lord: bool,
}

impl MushroomUnit {
    pub open spec fn spawn_spec(id: u64, stats: Mushroom, x: i64, is_lord: bool) -> MushroomUnit {
        MushroomUnit {
            id,
            stats,
            x,
            attack_timer: 0,
            in_combat: false,
            lunging: false,
            is_lord,
        }
    }

    /// A fresh mushroom with `stats` at `x`, ready to attack.
    pub fn spawn(id: u64, stats: Mushroom, x: i64, is_lord: bool) -> (r: MushroomUnit)
        ensures
            r == MushroomUnit::spawn_spec(id, stats, x, is_lord),
    {
        MushroomUnit { id, stats, x, attack_timer: 0, in_combat: false, lunging: false, is_lord }
    }
}

} // verus!
