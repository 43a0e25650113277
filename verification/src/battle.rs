//! One resolved battle: three candidate DNA codes are dealt into a
//! seeded order, the caller's pick is read, and the outcome falls out of
//! the picked code's lowest hexadecimal digit.
//!
//! The seed comes from the caller's environment and is weak, visible
//! entropy: whoever can predict or steer it can predict the shuffle.
//! That is a documented limitation of the game, not an error the
//! resolver can detect.

use vstd::prelude::*;

verus! {

/// Number of candidate DNA codes dealt into every battle.
pub const MAX_CARDS: usize = 3;

/// How a battle ended.
#[derive(Clone, Copy, Debug, PartialEq, Eq, Structural)]
pub enum BattleOutcome {
    /// The picked code wins: the acting zombie gains experience and a
    /// new zombie is minted from the code.
    Won,
    /// The picked code loses: nothing but the cooldown stamp changes.
    Lost,
}

/// The three ways a battle can deal its candidates: the seeded index
/// picks one of exactly these, so no fourth ordering is representable.
#[derive(Clone, Copy, Debug, PartialEq, Eq, Structural)]
pub enum Shuffle {
    /// Deal the candidates as given.
    Identity,
    /// Rotate the candidates one place to the left.
    RotateLeft,
    /// Rotate the candidates one place to the right.
    RotateRight,
}

/// One fight's record, created fresh for every battle and never reused.
#[derive(Clone, Copy, Debug, PartialEq, Eq)]
pub struct Battle {
    /// Identity of the army's controlling account.
    pub owner: [u8; 32],
    /// Slot index of the acting zombie.
    pub zombie_id: u8,
    /// The candidate codes in the order actually dealt.
    pub shuffled_order: [u64; MAX_CARDS],
    /// The caller's pick among the dealt candidates.
    pub selection: u8,
    /// How the fight ended.
    pub outcome: BattleOutcome,
}

/// One round of the xorshift mixing function over a 64-bit state.
pub open spec fn spec_xorshift64(seed: u64) -> u64 {
    let a = seed ^ (seed << 13);
    let b = a ^ (a >> 7);
    b ^ (b << 17)
}

/// The shuffle index a seed produces: the mixed state reduced modulo
/// the number of candidates.
pub open spec fn spec_shuffle_index(seed: u64) -> u64 {
    spec_xorshift64(seed) % 3
}

/// The ordering each shuffle index selects.
pub open spec fn spec_shuffle_of(seed: u64) -> Shuffle {
    if spec_shuffle_index(seed) == 0 {
        Shuffle::Identity
    } else if spec_shuffle_index(seed) == 1 {
        Shuffle::RotateLeft
    } else {
        Shuffle::RotateRight
    }
}

/// The three candidates as a shuffle deals them.
pub open spec fn spec_apply_shuffle(s: Shuffle, d: Seq<u64>) -> Seq<u64>
    recommends
        d.len() == 3,
{
    match s {
        Shuffle::Identity => d,
        Shuffle::RotateLeft => seq![d[1], d[2], d[0]],
        Shuffle::RotateRight => seq![d[2], d[0], d[1]],
    }
}

/// The dealt order a seed produces from three candidates.
pub open spec fn spec_shuffled(seed: u64, d: Seq<u64>) -> Seq<u64> {
    spec_apply_shuffle(spec_shuffle_of(seed), d)
}

/// The outcome a selected DNA code decides: lost exactly when its
/// lowest hexadecimal digit is one, won on the fifteen other digits.
pub open spec fn spec_outcome_of(dna: u64) -> BattleOutcome {
    if dna % 16 == 1 {
        BattleOutcome::Lost
    } else {
        BattleOutcome::Won
    }
}

impl Shuffle {
    /// The ordering the seed's mixed residue selects.
    pub fn from_seed(seed: u64) -> (s: Shuffle)
        ensures
            s == spec_shuffle_of(seed),
    {
        let r = Battle::random_number(seed);
        if r == 0 {
            Shuffle::Identity
        } else if r == 1 {
            Shuffle::RotateLeft
        } else {
            Shuffle::RotateRight
        }
    }

    /// Deal three candidates in this ordering.
    pub fn apply(&self, d: &[u64; MAX_CARDS]) -> (out: [u64; MAX_CARDS])
        ensures
            out@ == spec_apply_shuffle(*self, d@),
    {
        match self {
            Shuffle::Identity => *d,
            Shuffle::RotateLeft => {
                let mut out = [0u64; MAX_CARDS];
                out[0] = d[1];
                out[1] = d[2];
                out[2] = d[0];
                proof {
                    assert(out@ =~= seq![d@[1], d@[2], d@[0]]);
                }
                out
            },
            Shuffle::RotateRight => {
                let mut out = [0u64; MAX_CARDS];
                out[0] = d[2];
                out[1] = d[0];
                out[2] = d[1];
                proof {
                    assert(out@ =~= seq![d@[2], d@[0], d@[1]]);
                }
                out
            },
        }
    }
}

impl Battle {
    /// One round of xorshift mixing.
    pub fn xorshift64(seed: u64) -> (r: u64)
        ensures
            r == spec_xorshift64(seed),
    {
        let mut x = seed;
        x = x ^ (x << 13u64);
        x = x ^ (x >> 7u64);
        x = x ^ (x << 17u64);
        x
    }

    /// Derive the shuffle index from a seed: mix, then reduce modulo
    /// the number of candidates. The result always lies below three.
    pub fn random_number(seed: u64) -> (r: u8)
        ensures
            r as u64 == spec_shuffle_index(seed),
            r < 3,
    {
        let x = Self::xorshift64(seed);
        (x % 3) as u8
    }

    /// Deal the three candidate codes into this record's order, as the
    /// seed directs; no other field changes.
    pub fn shuffle_dna(&mut self, dna_values: [u64; MAX_CARDS], seed: u64)
        ensures
            final(self).shuffled_order@ == spec_shuffled(seed, dna_values@),
            final(self).owner == old(self).owner,
            final(self).zombie_id == old(self).zombie_id,
            final(self).selection == old(self).selection,
            final(self).outcome == old(self).outcome,
    {
        let shuffle = Shuffle::from_seed(seed);
        self.shuffled_order = shuffle.apply(&dna_values);
    }

    /// Read the caller's pick among the dealt codes and record the
    /// outcome its lowest hexadecimal digit decides; no other field
    /// changes.
    pub fn determine_battle_outcome(&mut self)
        requires
            old(self).selection < 3,
        ensures
            final(self).outcome == spec_outcome_of(
                old(self).shuffled_order@[old(self).selection as int],
            ),
            final(self).owner == old(self).owner,
            final(self).zombie_id == old(self).zombie_id,
            final(self).selection == old(self).selection,
            final(self).shuffled_order == old(self).shuffled_order,
    {
        let selected_dna = self.shuffled_order[self.selection as usize];
        self.outcome = if selected_dna % 16 == 1 {
            BattleOutcome::Lost
        } else {
            BattleOutcome::Won
        };
    }
}

/// For every seed the derived shuffle index lies in `{0, 1, 2}`: each
/// battle deals one of the three orderings and nothing else.
pub proof fn lemma_shuffle_index_in_range(seed: u64)
    ensures
        0 <= spec_shuffle_index(seed) < 3,
{
}

/// A battle is lost exactly when the selected code's lowest hexadecimal
/// digit is one; every one of the fifteen other digits wins.
pub proof fn lemma_outcome_by_low_digit(dna: u64)
    ensures
        spec_outcome_of(dna) == BattleOutcome::Lost <==> dna % 16 == 1,
        spec_outcome_of(dna) == BattleOutcome::Won <==> dna % 16 != 1,
{
}

} // verus!
