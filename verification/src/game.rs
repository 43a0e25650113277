//! The game's three operations, as its hosting caller invokes them.
//!
//! The caller has already authenticated the owner and supplies the
//! clock reading `now` and the battle seed from its own environment;
//! nothing here reads a clock or entropy source itself. The caller must
//! also serialize calls: at most one mutation may be in flight per army.

use vstd::prelude::*;

use crate::army::Army;
use crate::army::MAX_ZOMBIES;
use crate::army::first_empty;
use crate::battle::Battle;
use crate::battle::BattleOutcome;
use crate::battle::spec_outcome_of;
use crate::battle::spec_shuffled;
use crate::errors::GameErrorCode;
use crate::zombie::Zombie;
use crate::zombie::spec_clear;
use crate::zombie::spec_from_dna;
use crate::zombie::spec_generate_dna;
use crate::zombie::spec_is_ready;

verus! {

/// The roster after the acting zombie's cooldown is stamped with `now`.
pub open spec fn spec_stamped(zs: Seq<Zombie>, id: int, now: i64) -> Seq<Zombie> {
    zs.update(id, Zombie { last_fight: now, ..zs[id] })
}

/// The roster after the acting zombie's cooldown is stamped with `now`
/// and it is granted one experience point.
pub open spec fn spec_rewarded(zs: Seq<Zombie>, id: int, now: i64) -> Seq<Zombie> {
    zs.update(id, Zombie { last_fight: now, xp: (zs[id].xp + 1) as u8, ..zs[id] })
}

/// Build a new army for `owner`: slot zero holds a zombie seeded from
/// the owner's identity and the current time, every other slot is empty.
pub fn init_army(owner: [u8; 32], now: i64) -> (army: Army)
    ensures
        army.owner == owner,
        army.zombies@[0] == (Zombie { dna: spec_generate_dna(owner@, now), last_fight: 0, xp: 0 }),
        forall|j: int|
            1 <= j < MAX_ZOMBIES ==> army.zombies@[j] == (Zombie {
                dna: 0,
                last_fight: 0,
                xp: 0,
            }),
{
    let empty = Zombie { dna: 0, last_fight: 0, xp: 0 };
    let mut zombies: [Zombie; MAX_ZOMBIES] = [empty; MAX_ZOMBIES];
    zombies[0] = Zombie::from_key(&owner, now);
    Army { owner, zombies }
}

/// Empty the given slot of the army. Fails with `InvalidZombieId`,
/// changing nothing, exactly when the index lies outside the roster;
/// otherwise only that slot changes, to the all-zero state.
pub fn remove_zombie(army: &mut Army, zombie_id: u8) -> (r: Result<(), GameErrorCode>)
    ensures
        final(army).owner == old(army).owner,
        zombie_id as int >= MAX_ZOMBIES ==> r == Err::<(), GameErrorCode>(
            GameErrorCode::InvalidZombieId,
        ) && *final(army) == *old(army),
        (zombie_id as int) < MAX_ZOMBIES ==> r == Ok::<(), GameErrorCode>(())
            && final(army).zombies@ == old(army).zombies@.update(
            zombie_id as int,
            spec_clear(old(army).zombies@[zombie_id as int]),
        ),
{
    if zombie_id as usize >= MAX_ZOMBIES {
        return Err(GameErrorCode::InvalidZombieId);
    }
    let idx = zombie_id as usize;
    let mut z = army.zombies[idx];
    z.remove();
    army.zombies[idx] = z;
    Ok(())
}

/// Resolve one battle for the army's zombie in slot `zombie_id` against
/// the three candidate codes, with the caller's pick `selection`, the
/// environment's `seed`, and the clock reading `now`.
///
/// An out-of-roster slot, an out-of-range pick, and a zombie still in
/// cooldown are rejected, in that order, with nothing changed. Past
/// those checks the cooldown stamp always commits, win or lose. A loss
/// changes nothing else. A win grants the acting zombie one experience
/// point — failing with `ArithmeticOverflow` if the counter is full —
/// and mints a new zombie from the picked code into the first empty
/// slot; if every slot is occupied the call fails with `NoEmptySlot`,
/// but the stamp and the experience point still stand.
pub fn battle(
    army: &mut Army,
    owner: [u8; 32],
    zombie_id: u8,
    selection: u8,
    dna1: u64,
    dna2: u64,
    dna3: u64,
    seed: u64,
    now: i64,
) -> (r: Result<Battle, GameErrorCode>)
    ensures
        final(army).owner == old(army).owner,
        zombie_id as int >= MAX_ZOMBIES ==> r == Err::<Battle, GameErrorCode>(
            GameErrorCode::InvalidZombieId,
        ) && *final(army) == *old(army),
        (zombie_id as int) < MAX_ZOMBIES && selection >= 3 ==> r == Err::<Battle, GameErrorCode>(
            GameErrorCode::InvalidSelection,
        ) && *final(army) == *old(army),
        (zombie_id as int) < MAX_ZOMBIES && selection < 3 && !spec_is_ready(
            old(army).zombies@[zombie_id as int],
            now,
        ) ==> r == Err::<Battle, GameErrorCode>(GameErrorCode::ZombieNotReady) && *final(army)
            == *old(army),
        (zombie_id as int) < MAX_ZOMBIES && selection < 3 && spec_is_ready(
            old(army).zombies@[zombie_id as int],
            now,
        ) ==> ({
            let zs = old(army).zombies@;
            let id = zombie_id as int;
            let shuffled = spec_shuffled(seed, seq![dna1, dna2, dna3]);
            let sel = shuffled[selection as int];
            &&& spec_outcome_of(sel) == BattleOutcome::Lost ==> final(army).zombies@
                == spec_stamped(zs, id, now) && (r matches Ok(b) && b.owner == owner && b.zombie_id
                == zombie_id && b.selection == selection && b.shuffled_order@ == shuffled
                && b.outcome == BattleOutcome::Lost)
            &&& spec_outcome_of(sel) == BattleOutcome::Won && zs[id].xp == 255 ==> r == Err::<
                Battle,
                GameErrorCode,
            >(GameErrorCode::ArithmeticOverflow) && final(army).zombies@ == spec_stamped(
                zs,
                id,
                now,
            )
            &&& spec_outcome_of(sel) == BattleOutcome::Won && zs[id].xp < 255 ==> ({
                let rewarded = spec_rewarded(zs, id, now);
                &&& first_empty(rewarded) == -1 ==> r == Err::<Battle, GameErrorCode>(
                    GameErrorCode::NoEmptySlot,
                ) && final(army).zombies@ == rewarded
                &&& first_empty(rewarded) != -1 ==> final(army).zombies@ == rewarded.update(
                    first_empty(rewarded),
                    spec_from_dna(sel),
                ) && (r matches Ok(b) && b.owner == owner && b.zombie_id == zombie_id
                    && b.selection == selection && b.shuffled_order@ == shuffled && b.outcome
                    == BattleOutcome::Won)
            })
        }),
{
    if zombie_id as usize >= MAX_ZOMBIES {
        return Err(GameErrorCode::InvalidZombieId);
    }
    if selection >= 3 {
        return Err(GameErrorCode::InvalidSelection);
    }
    let idx = zombie_id as usize;
    if !army.zombies[idx].is_ready(now) {
        return Err(GameErrorCode::ZombieNotReady);
    }

    let mut acting = army.zombies[idx];
    acting.set_last_fight(now);
    army.zombies[idx] = acting;
    proof {
        assert(army.zombies@ =~= spec_stamped(old(army).zombies@, zombie_id as int, now));
    }

    let mut battle_rec = Battle {
        owner,
        zombie_id,
        shuffled_order: [0u64; 3],
        selection,
        outcome: BattleOutcome::Won,
    };
    battle_rec.shuffle_dna([dna1, dna2, dna3], seed);
    battle_rec.determine_battle_outcome();

    if battle_rec.outcome == BattleOutcome::Lost {
        return Ok(battle_rec);
    }

    let mut rewarded = army.zombies[idx];
    match rewarded.add_xp() {
        Ok(()) => {},
        Err(e) => {
            return Err(e);
        },
    }
    army.zombies[idx] = rewarded;
    proof {
        assert(army.zombies@ =~= spec_rewarded(old(army).zombies@, zombie_id as int, now));
    }

    let human_dna = battle_rec.shuffled_order[selection as usize];
    let new_zombie = Zombie::from_dna(human_dna);
    match army.add_zombie(new_zombie) {
        Ok(()) => Ok(battle_rec),
        Err(e) => Err(e),
    }
}

} // verus!
