use zombies::errors::GameErrorCode;
use zombies::zombie::{Zombie, DNA_LIVE_BIT};

const OWNER: [u8; 32] = [7u8; 32];

#[test]
fn from_dna_forces_live_bit() {
    assert_eq!(Zombie::from_dna(0).dna, 0x8000_0000_0000_0000);
    assert_eq!(Zombie::from_dna(5).dna, 0x8000_0000_0000_0005);
    assert_eq!(Zombie::from_dna(u64::MAX).dna, u64::MAX);
    let z = Zombie::from_dna(0x1234_5678_9abc_def0);
    assert_eq!(z.dna, 0x9234_5678_9abc_def0);
    assert_eq!(z.last_fight, 0);
    assert_eq!(z.xp, 0);
}

#[test]
fn from_dna_live_bit_for_many_inputs() {
    for d in [0u64, 1, 2, 15, 16, 255, 1 << 62, (1 << 63) - 1, 1 << 63, u64::MAX] {
        let z = Zombie::from_dna(d);
        assert_eq!(z.dna & DNA_LIVE_BIT, DNA_LIVE_BIT);
        assert_ne!(z.dna, 0);
    }
}

#[test]
fn from_key_sets_live_bit_and_fresh_state() {
    let z = Zombie::from_key(&OWNER, 1_700_000_000);
    assert_eq!(z.dna & DNA_LIVE_BIT, DNA_LIVE_BIT);
    assert_ne!(z.dna, 0);
    assert_eq!(z.last_fight, 0);
    assert_eq!(z.xp, 0);
}

#[test]
fn generate_dna_matches_sha256_digest() {
    let now: i64 = 123_456_789;
    let mut data = OWNER.to_vec();
    data.extend_from_slice(&(now as u64).to_le_bytes());
    let digest = anchor_lang::solana_program::hash::hash(&data);
    let low: [u8; 8] = digest.to_bytes()[..8].try_into().unwrap();
    let expected = u64::from_le_bytes(low) | DNA_LIVE_BIT;
    assert_eq!(Zombie::generate_dna(&OWNER, now), expected);
}

#[test]
fn generate_dna_deterministic_and_input_sensitive() {
    let a = Zombie::generate_dna(&OWNER, 1000);
    let b = Zombie::generate_dna(&OWNER, 1000);
    assert_eq!(a, b);
    let c = Zombie::generate_dna(&OWNER, 1001);
    assert_ne!(a, c);
    let other = [8u8; 32];
    let d = Zombie::generate_dna(&other, 1000);
    assert_ne!(a, d);
}

#[test]
fn is_ready_cooldown_boundary() {
    let z = Zombie { dna: 5, last_fight: 100, xp: 0 };
    assert!(!z.is_ready(100));
    assert!(!z.is_ready(159));
    assert!(z.is_ready(160));
    assert!(z.is_ready(161));
    assert!(z.is_ready(i64::MAX));
}

#[test]
fn is_ready_fresh_zombie() {
    let z = Zombie { dna: 5, last_fight: 0, xp: 0 };
    assert!(!z.is_ready(59));
    assert!(z.is_ready(60));
}

#[test]
fn is_ready_extreme_timestamps_do_not_panic() {
    let z = Zombie { dna: 5, last_fight: i64::MIN, xp: 0 };
    assert!(z.is_ready(0));
    let y = Zombie { dna: 5, last_fight: i64::MAX, xp: 0 };
    assert!(!y.is_ready(0));
}

#[test]
fn remove_clears_and_is_idempotent() {
    let mut z = Zombie { dna: 0x9000_0000_0000_0001, last_fight: 77, xp: 9 };
    z.remove();
    let once = z;
    assert_eq!(z, Zombie { dna: 0, last_fight: 0, xp: 0 });
    z.remove();
    assert_eq!(z, once);
}

#[test]
fn add_xp_increments_until_overflow() {
    let mut z = Zombie { dna: 5, last_fight: 0, xp: 0 };
    assert_eq!(z.add_xp(), Ok(()));
    assert_eq!(z.xp, 1);
    z.xp = 254;
    assert_eq!(z.add_xp(), Ok(()));
    assert_eq!(z.xp, 255);
    assert_eq!(z.add_xp(), Err(GameErrorCode::ArithmeticOverflow));
    assert_eq!(z.xp, 255);
}

#[test]
fn set_last_fight_stamps_only_the_timestamp() {
    let mut z = Zombie { dna: 5, last_fight: 0, xp: 3 };
    z.set_last_fight(444);
    assert_eq!(z, Zombie { dna: 5, last_fight: 444, xp: 3 });
}
