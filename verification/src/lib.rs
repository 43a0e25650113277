//! The verified core of a creature-collection game: an owner's army of
//! up to ten zombies, each carrying a 64-bit genetic code, a cooldown
//! timer and an experience counter, and a battle resolver that deals
//! three candidate codes into a seeded order, reads the caller's pick,
//! and on a win mints the pick's descendant into the army.
//!
//! The hosting environment authenticates the caller and supplies the
//! clock reading and the battle seed; every operation here is a pure,
//! contract-checked function of the values handed in. The seed is weak,
//! caller-visible entropy — a documented limitation of the game, not
//! something the core can detect.

pub mod army;
pub mod battle;
pub mod errors;
pub mod game;
pub mod zombie;
