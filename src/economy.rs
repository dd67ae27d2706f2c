//! Spores, the spawning template and the upgrade shop.
use vstd::prelude::*;

use crate::fixed::{add_sat, clamp64, clamp_u32};
use crate::rules::{
    BASE_MUSHROOMS_PER_CLICK, MUSHROOM_BASE_ATK, MUSHROOM_BASE_ATK_SPEED, MUSHROOM_BASE_HP,
    MUSHROOM_BASE_MOVE_SPEED, UPGRADE_COST_BASE_MULTIPLIER,
    UPGRADE_COST_MUSHROOMS_PER_CLICK_MULTIPLIER, UPGRADE_COST_SPORE_COUNT_MULTIPLIER,
    UPGRADE_MUSHROOMS_PER_CLICK_BASE_COST, UPGRADE_MUSHROOM_ATK_BASE_COST,
    UPGRADE_MUSHROOM_ATK_SPEED_BASE_COST, UPGRADE_MUSHROOM_HP_BASE_COST,
    UPGRADE_MUSHROOM_MOVE_SPEED_BASE_COST, UPGRADE_SPORE_COUNT_BASE_COST,
};
use crate::units::Mushroom;

verus! {

/// What an upgrade improves.
#[derive(Clone, Copy, Debug, PartialEq, Eq, Structural)]
pub enum UpgradeType {
    /// Spores each fallen mushroom yields.
    SporeCount,
    /// Mushrooms sent per click.
    MushroomsPerClick,
    HP,
    ATK,
    MoveSpeed,
    AtkSpeed,
}

/// `a * b` held to the range of `u32`.
pub fn mul_sat(a: u32, b: u32) -> (r: u32)
    ensures
        r == clamp_u32(a * b),
{
    proof {
        assert(a as int * b as int <= u32::MAX as int * u32::MAX as int) by (nonlinear_arith)
            requires a <= u32::MAX, b <= u32::MAX;
    }
    let p: u64 = a as u64 * b as u64;
    if p > u32::MAX as u64 {
        u32::MAX
    } else {
        p as u32
    }
}

/// A shop entry: what it upgrades, its current price, and the factor the
/// price grows by with each purchase.
#[derive(Clone, Copy, Debug, PartialEq, Eq, Structural)]
pub struct UpgradeButton {
    pub upgrade_type: UpgradeType,
    pub cost: u32,
    pub cost_multiplier: u32,
}

impl UpgradeButton {
    /// The starting price and the price factor of each upgrade.
    pub open spec fn initial(upgrade_type: UpgradeType) -> UpgradeButton {
        let (cost, cost_multiplier) = match upgrade_type {
            UpgradeType::SporeCount => (
                UPGRADE_SPORE_COUNT_BASE_COST,
                UPGRADE_COST_SPORE_COUNT_MULTIPLIER,
            ),
            UpgradeType::MushroomsPerClick => (
                UPGRADE_MUSHROOMS_PER_CLICK_BASE_COST,
                UPGRADE_COST_MUSHROOMS_PER_CLICK_MULTIPLIER,
            ),
            UpgradeType::HP => (UPGRADE_MUSHROOM_HP_BASE_COST, UPGRADE_COST_BASE_MULTIPLIER),
            UpgradeType::ATK => (UPGRADE_MUSHROOM_ATK_BASE_COST, UPGRADE_COST_BASE_MULTIPLIER),
            UpgradeType::MoveSpeed => (
                UPGRADE_MUSHROOM_MOVE_SPEED_BASE_COST,
                UPGRADE_COST_BASE_MULTIPLIER,
            ),
            UpgradeType::AtkSpeed => (
                UPGRADE_MUSHROOM_ATK_SPEED_BASE_COST,
                UPGRADE_COST_BASE_MULTIPLIER,
            ),
        };
        UpgradeButton { upgrade_type, cost, cost_multiplier }
    }

    /// The shop entry for `upgrade_type` at its starting price.
    pub fn new(upgrade_type: UpgradeType) -> (r: UpgradeButton)
        ensures
            r == UpgradeButton::initial(upgrade_type),
    {
        match upgrade_type {
            UpgradeType::SporeCount => UpgradeButton {
                upgrade_type,
                cost: UPGRADE_SPORE_COUNT_BASE_COST,
                cost_multiplier: UPGRADE_COST_SPORE_COUNT_MULTIPLIER,
            },
            UpgradeType::MushroomsPerClick => UpgradeButton {
                upgrade_type,
                cost: UPGRADE_MUSHROOMS_PER_CLICK_BASE_COST,
                cost_multiplier: UPGRADE_COST_MUSHROOMS_PER_CLICK_MULTIPLIER,
            },
            UpgradeType::HP => UpgradeButton {
                upgrade_type,
                cost: UPGRADE_MUSHROOM_HP_BASE_COST,
                cost_multiplier: UPGRADE_COST_BASE_MULTIPLIER,
            },
            UpgradeType::ATK => UpgradeButton {
                upgrade_type,
                cost: UPGRADE_MUSHROOM_ATK_BASE_COST,
                cost_multiplier: UPGRADE_COST_BASE_MULTIPLIER,
            },
            UpgradeType::MoveSpeed => UpgradeButton {
                upgrade_type,
                cost: UPGRADE_MUSHROOM_MOVE_SPEED_BASE_COST,
                cost_multiplier: UPGRADE_COST_BASE_MULTIPLIER,
            },
            UpgradeType::AtkSpeed => UpgradeButton {
                upgrade_type,
                cost: UPGRADE_MUSHROOM_ATK_SPEED_BASE_COST,
                cost_multiplier: UPGRADE_COST_BASE_MULTIPLIER,
            },
        }
    }

    /// The entry after one purchase: the price grows by its factor, and
    /// stops at `u32::MAX`.
    pub open spec fn bought(self) -> UpgradeButton {
        UpgradeButton { cost: clamp_u32(self.cost * self.cost_multiplier) as u32, ..self }
    }
}

/// What every new mushroom is made from, and how many one click sends.
#[derive(Clone, Copy, Debug, PartialEq, Eq, Structural)]
pub struct MushroomManager {
    pub mushroom_template: Mushroom,
    pub spawn_count: u32,
}

impl MushroomManager {
    pub open spec fn wf(&self) -> bool {
        self.mushroom_template.wf()
    }

    pub open spec fn initial() -> MushroomManager {
        MushroomManager { mushroom_template: Mushroom::base(), spawn_count: BASE_MUSHROOMS_PER_CLICK }
    }

    /// The manager after one upgrade of `upgrade_type`. Spore yield grows by
    /// the hero's level, mushrooms per click by one, and each stat by its
    /// base value; all of them stop at the top of their range.
    pub open spec fn upgraded(self, upgrade_type: UpgradeType, hero_level: u32) -> MushroomManager {
        let t = self.mushroom_template;
        match upgrade_type {
            UpgradeType::SporeCount => MushroomManager {
                mushroom_template: Mushroom {
                    spore_count: clamp_u32(t.spore_count + hero_level) as u32,
                    ..t
                },
                ..self
            },
            UpgradeType::MushroomsPerClick => MushroomManager {
                spawn_count: clamp_u32(self.spawn_count + 1) as u32,
                ..self
            },
            UpgradeType::HP => MushroomManager {
                mushroom_template: Mushroom { hp: clamp64(t.hp + MUSHROOM_BASE_HP) as i64, ..t },
                ..self
            },
            UpgradeType::ATK => MushroomManager {
                mushroom_template: Mushroom { atk: clamp64(t.atk + MUSHROOM_BASE_ATK) as i64, ..t },
                ..self
            },
            UpgradeType::MoveSpeed => MushroomManager {
                mushroom_template: Mushroom {
                    move_speed: clamp64(t.move_speed + MUSHROOM_BASE_MOVE_SPEED) as i64,
                    ..t
                },
                ..self
            },
            UpgradeType::AtkSpeed => MushroomManager {
                mushroom_template: Mushroom {
                    atk_speed: clamp64(t.atk_speed + MUSHROOM_BASE_ATK_SPEED) as i64,
                    ..t
                },
                ..self
            },
        }
    }

    /// Base mushrooms, one per click.
    pub fn new() -> (r: MushroomManager)
        ensures
            r == MushroomManager::initial(),
            r.wf(),
    {
        MushroomManager { mushroom_template: Mushroom::new(), spawn_count: BASE_MUSHROOMS_PER_CLICK }
    }

    /// Applies one upgrade of `upgrade_type`.
    pub fn apply_upgrade(&mut self, upgrade_type: UpgradeType, hero_level: u32)
        requires
            old(self).wf(),
        ensures
            *final(self) == old(self).upgraded(upgrade_type, hero_level),
            final(self).wf(),
    {
        match upgrade_type {
            UpgradeType::SporeCount => {
                self.mushroom_template.spore_count =
                    self.mushroom_template.spore_count.saturating_add(hero_level);
            },
            UpgradeType::MushroomsPerClick => {
                self.spawn_count = self.spawn_count.saturating_add(1);
            },
            UpgradeType::HP => {
                self.mushroom_template.hp = add_sat(self.mushroom_template.hp, MUSHROOM_BASE_HP);
            },
            UpgradeType::ATK => {
                self.mushroom_template.atk = add_sat(self.mushroom_template.atk, MUSHROOM_BASE_ATK);
            },
            UpgradeType::MoveSpeed => {
                self.mushroom_template.move_speed =
                    add_sat(self.mushroom_template.move_speed, MUSHROOM_BASE_MOVE_SPEED);
            },
            UpgradeType::AtkSpeed => {
                self.mushroom_template.atk_speed =
                    add_sat(self.mushroom_template.atk_speed, MUSHROOM_BASE_ATK_SPEED);
            },
        }
    }
}

impl Default for MushroomManager {
    fn default() -> (r: MushroomManager)
        ensures
            r == MushroomManager::initial(),
    {
        MushroomManager::new()
    }
}

} // verus!
