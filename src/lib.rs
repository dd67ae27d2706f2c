//! Combat and economy rules of a small incremental battle game.
//!
//! A hero walks from the right towards the player's mushroom base. The player
//! spends spores to send mushrooms against the hero, gains spores when they
//! fall, buys upgrades for future mushrooms and may summon one Mushroom Lord.
//!
//! The whole simulation is integer arithmetic. Every continuous quantity
//! (health, attack, speeds, ranges, positions, experience) is a fixed-point
//! number counted in thousandths, and time is counted in milliseconds. The
//! host engine converts to and from its own units when it draws a frame.
use vstd::prelude::*;

pub mod rules;
pub mod fixed;
pub mod units;
pub mod economy;
pub mod battle;

verus! {

} // verus!
