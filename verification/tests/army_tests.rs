use zombies::army::{Army, MAX_ZOMBIES};
use zombies::errors::GameErrorCode;
use zombies::zombie::Zombie;

const OWNER: [u8; 32] = [9u8; 32];

fn empty_zombie() -> Zombie {
    Zombie { dna: 0, last_fight: 0, xp: 0 }
}

fn live_zombie(dna: u64) -> Zombie {
    Zombie { dna: dna | 0x8000_0000_0000_0000, last_fight: 0, xp: 0 }
}

fn empty_army() -> Army {
    Army { owner: OWNER, zombies: [empty_zombie(); MAX_ZOMBIES] }
}

#[test]
fn add_zombie_first_fit_lowest_slot() {
    let mut army = empty_army();
    army.zombies[0] = live_zombie(1);
    army.zombies[2] = live_zombie(3);
    let z = live_zombie(42);
    assert_eq!(army.add_zombie(z), Ok(()));
    assert_eq!(army.zombies[1], z);
    // the occupied slots are untouched
    assert_eq!(army.zombies[0], live_zombie(1));
    assert_eq!(army.zombies[2], live_zombie(3));
    for i in 3..MAX_ZOMBIES {
        assert_eq!(army.zombies[i], empty_zombie());
    }
}

#[test]
fn add_zombie_fills_every_slot_in_order() {
    let mut army = empty_army();
    for i in 0..MAX_ZOMBIES {
        let z = live_zombie(i as u64 + 1);
        assert_eq!(army.add_zombie(z), Ok(()));
        assert_eq!(army.zombies[i], z);
    }
    assert_eq!(
        army.add_zombie(live_zombie(99)),
        Err(GameErrorCode::NoEmptySlot)
    );
    // a full roster is left exactly as it was
    for i in 0..MAX_ZOMBIES {
        assert_eq!(army.zombies[i], live_zombie(i as u64 + 1));
    }
}

#[test]
fn add_zombie_full_army_fails() {
    let mut army = empty_army();
    for i in 0..MAX_ZOMBIES {
        army.zombies[i] = live_zombie(i as u64 + 1);
    }
    assert_eq!(
        army.add_zombie(live_zombie(7)),
        Err(GameErrorCode::NoEmptySlot)
    );
    assert_eq!(army.owner, OWNER);
}

#[test]
fn add_zombie_after_removal_reuses_the_slot() {
    let mut army = empty_army();
    for i in 0..MAX_ZOMBIES {
        army.zombies[i] = live_zombie(i as u64 + 1);
    }
    army.zombies[4] = empty_zombie();
    let z = live_zombie(77);
    assert_eq!(army.add_zombie(z), Ok(()));
    assert_eq!(army.zombies[4], z);
}
