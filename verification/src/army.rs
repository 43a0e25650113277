//! An army: one owner's fixed-capacity roster of zombies.
//!
//! Slots are ordered and scanned in ascending index; a slot whose
//! zombie has `dna == 0` is empty. Allocation is first-fit: a new
//! zombie lands in the lowest empty slot, and the roster never grows
//! past its fixed capacity.

use vstd::prelude::*;

use crate::errors::GameErrorCode;
use crate::zombie::Zombie;

verus! {

/// Fixed number of slots in every army.
pub const MAX_ZOMBIES: usize = 10;

/// One owner's roster. The capacity is fixed at construction; removal
/// only empties a slot, it never shrinks the array.
///
/// The hosting caller must serialize mutations: at most one operation
/// may act on a given army at a time, and only operations authorized
/// for `owner` may reach it.
pub struct Army {
    /// Identity of the controlling account.
    pub owner: [u8; 32],
    /// The ordered slots; `dna == 0` marks an empty one.
    pub zombies: [Zombie; MAX_ZOMBIES],
}

/// Index of the first empty slot at position `i` or beyond, or `-1` if
/// every slot from `i` on is occupied.
pub open spec fn first_empty_from(zs: Seq<Zombie>, i: int) -> int
    decreases zs.len() - i when 0 <= i <= zs.len()
{
    if i >= zs.len() {
        -1
    } else if zs[i].dna == 0 {
        i
    } else {
        first_empty_from(zs, i + 1)
    }
}

/// Index of the first empty slot of the roster, or `-1` if it is full.
pub open spec fn first_empty(zs: Seq<Zombie>) -> int {
    first_empty_from(zs, 0)
}

proof fn lemma_first_empty_from_props(zs: Seq<Zombie>, i: int)
    requires
        0 <= i <= zs.len(),
    ensures
        first_empty_from(zs, i) == -1 ==> (forall|j: int|
            i <= j < zs.len() ==> (#[trigger] zs[j]).dna != 0),
        first_empty_from(zs, i) != -1 ==> i <= first_empty_from(zs, i) < zs.len()
            && zs[first_empty_from(zs, i)].dna == 0
            && (forall|j: int| i <= j < first_empty_from(zs, i) ==> (#[trigger] zs[j]).dna != 0),
    decreases zs.len() - i,
{
    if i < zs.len() && zs[i].dna != 0 {
        lemma_first_empty_from_props(zs, i + 1);
    }
}

/// First-fit allocation never lands on an occupied slot, and reports a
/// full roster exactly when every slot is occupied: `first_empty` is
/// `-1` if and only if no slot is empty, and otherwise names the lowest
/// empty slot.
pub proof fn lemma_first_empty_sound(zs: Seq<Zombie>)
    ensures
        first_empty(zs) == -1 <==> (forall|j: int|
            0 <= j < zs.len() ==> (#[trigger] zs[j]).dna != 0),
        first_empty(zs) != -1 ==> 0 <= first_empty(zs) < zs.len()
            && zs[first_empty(zs)].dna == 0
            && (forall|j: int| 0 <= j < first_empty(zs) ==> (#[trigger] zs[j]).dna != 0),
{
    lemma_first_empty_from_props(zs, 0);
}

proof fn lemma_first_empty_skip_prefix(zs: Seq<Zombie>, i: int)
    requires
        0 <= i <= zs.len(),
        forall|j: int| 0 <= j < i ==> (#[trigger] zs[j]).dna != 0,
    ensures
        first_empty(zs) == first_empty_from(zs, i),
    decreases i,
{
    if i > 0 {
        lemma_first_empty_skip_prefix(zs, i - 1);
    }
}

impl Army {
    /// Write `zombie` into the first empty slot. Fails with
    /// `NoEmptySlot`, leaving the roster untouched, exactly when every
    /// slot is occupied; otherwise only the first empty slot changes.
    pub fn add_zombie(&mut self, zombie: Zombie) -> (r: Result<(), GameErrorCode>)
        ensures
            final(self).owner == old(self).owner,
            first_empty(old(self).zombies@) == -1 ==> r == Err::<(), GameErrorCode>(
                GameErrorCode::NoEmptySlot,
            ) && *final(self) == *old(self),
            first_empty(old(self).zombies@) != -1 ==> r == Ok::<(), GameErrorCode>(())
                && final(self).zombies@ == old(self).zombies@.update(
                first_empty(old(self).zombies@),
                zombie,
            ),
    {
        let mut i: usize = 0;
        while i < MAX_ZOMBIES
            invariant
                i <= MAX_ZOMBIES,
                *self == *old(self),
                forall|j: int| 0 <= j < i ==> (#[trigger] self.zombies@[j]).dna != 0,
            decreases MAX_ZOMBIES - i,
        {
            if self.zombies[i].dna == 0 {
                proof {
                    lemma_first_empty_skip_prefix(self.zombies@, i as int);
                }
                self.zombies[i] = zombie;
                return Ok(());
            }
            i = i + 1;
        }
        proof {
            lemma_first_empty_skip_prefix(self.zombies@, MAX_ZOMBIES as int);
        }
        Err(GameErrorCode::NoEmptySlot)
    }
}

} // verus!
