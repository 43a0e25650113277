//! Error kinds reported by the game's operations.

use vstd::prelude::*;

verus! {

/// Every way an army or battle operation can fail. Each operation's
/// contract says exactly which variant comes back on which inputs.
#[derive(Clone, Copy, Debug, PartialEq, Eq, Structural)]
pub enum GameErrorCode {
    /// The given slot index lies outside the army's fixed capacity.
    InvalidZombieId,
    /// The acting zombie fought less than the cooldown period ago.
    ZombieNotReady,
    /// A DNA value was rejected.
    InvalidDna,
    /// The selection index lies outside the three shuffled candidates.
    InvalidSelection,
    /// The army cannot take another zombie.
    ArmyFull,
    /// An operation needed more experience than the zombie has.
    InsufficientXp,
    /// A battle record carried an outcome that is neither won nor lost.
    InvalidBattleOutcome,
    /// A battle for this army is already being resolved.
    BattleInProgress,
    /// The caller is not authorized for the targeted army.
    Unauthorized,
    /// A counter would have left its representable range.
    ArithmeticOverflow,
    /// Every slot of the army is occupied.
    NoEmptySlot,
}

} // verus!
