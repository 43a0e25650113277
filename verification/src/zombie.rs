//! A single zombie: its genetic code, cooldown timer, and experience.
//!
//! A zombie's DNA is a 64-bit code whose most significant bit is forced
//! to one for every living zombie, so that `dna == 0` can serve as the
//! sentinel for an empty roster slot.

use vstd::prelude::*;

use crate::errors::GameErrorCode;

verus! {

/// The bit every living zombie's DNA carries, so that a live code can
/// never collide with the empty-slot sentinel `0`.
pub const DNA_LIVE_BIT: u64 = 0x8000_0000_0000_0000;

/// Seconds a zombie must rest between two fights.
pub const COOLDOWN_SECONDS: i64 = 60;

/// The first eight bytes, read as a little-endian integer, of the SHA-256
/// digest of `data`. The digest itself is computed by an outside crate;
/// only this name ties its calls together.
pub uninterp spec fn digest_low64(data: Seq<u8>) -> u64;

/// Relies on `anchor_lang::solana_program::hash::hash`: a SHA-256 digest,
/// a function of the input bytes alone. The wrapper returns the digest's
/// first eight bytes as a little-endian integer.
#[verifier::external_body]
fn sha256_low64(data: &Vec<u8>) -> (r: u64)
    ensures
        r == digest_low64(data@),
{
    let digest = anchor_lang::solana_program::hash::hash(data.as_slice());
    let bytes = digest.to_bytes();
    let mut low = [0u8; 8];
    low.copy_from_slice(&bytes[0..8]);
    u64::from_le_bytes(low)
}

/// One creature of an army. `dna == 0` marks an empty slot; a populated
/// slot always has [`DNA_LIVE_BIT`] set in its `dna`.
#[derive(Clone, Copy, Debug, PartialEq, Eq, Structural)]
pub struct Zombie {
    /// Genetic code; zero for an empty slot, bit 63 set otherwise.
    pub dna: u64,
    /// Unix timestamp of the last fight; zero if the zombie never fought.
    pub last_fight: i64,
    /// Experience counter, one point per won battle.
    pub xp: u8,
}

/// The byte string hashed to seed a new army's first zombie: the owner's
/// identity followed by the timestamp, cast to unsigned, in little-endian
/// order.
pub open spec fn spec_dna_input(owner: Seq<u8>, now: i64) -> Seq<u8> {
    owner + vstd::bytes::spec_u64_to_le_bytes(now as u64)
}

/// The DNA seeded from an owner identity and a timestamp: the low 64 bits
/// of the digest with the live bit forced on.
pub open spec fn spec_generate_dna(owner: Seq<u8>, now: i64) -> u64 {
    digest_low64(spec_dna_input(owner, now)) | DNA_LIVE_BIT
}

/// The zombie minted from a parent DNA value: the code with the live bit
/// forced on, no experience, never fought.
pub open spec fn spec_from_dna(dna: u64) -> Zombie {
    Zombie { dna: dna | DNA_LIVE_BIT, last_fight: 0, xp: 0 }
}

/// The all-zero state a removed zombie is left in.
pub open spec fn spec_clear(z: Zombie) -> Zombie {
    Zombie { dna: 0, last_fight: 0, xp: 0 }
}

/// Whether a zombie may fight at time `now`: at least
/// [`COOLDOWN_SECONDS`] have passed since its last fight.
pub open spec fn spec_is_ready(z: Zombie, now: i64) -> bool {
    now - z.last_fight >= COOLDOWN_SECONDS
}

impl Zombie {
    /// Seed an army's first zombie from its owner's identity and the
    /// current time.
    pub fn from_key(owner_key: &[u8; 32], now: i64) -> (z: Zombie)
        ensures
            z == (Zombie { dna: spec_generate_dna(owner_key@, now), last_fight: 0, xp: 0 }),
            z.dna & DNA_LIVE_BIT == DNA_LIVE_BIT,
    {
        let dna = Self::generate_dna(owner_key, now);
        Zombie { dna, last_fight: 0, xp: 0 }
    }

    /// Derive a DNA code from an owner identity and a timestamp by
    /// hashing the two and forcing the live bit on.
    ///
    /// The timestamp is the only entropy between two calls for the same
    /// owner: a caller who can predict it can predict the code.
    pub fn generate_dna(owner_key: &[u8; 32], now: i64) -> (dna: u64)
        ensures
            dna == spec_generate_dna(owner_key@, now),
            dna & DNA_LIVE_BIT == DNA_LIVE_BIT,
    {
        let mut data: Vec<u8> = Vec::new();
        for i in 0..32
            invariant
                data@ == owner_key@.subrange(0, i as int),
        {
            data.push(owner_key[i]);
            proof {
                assert(owner_key@.subrange(0, i as int).push(owner_key@[i as int])
                    =~= owner_key@.subrange(0, i + 1));
            }
        }
        let mut ts = vstd::bytes::u64_to_le_bytes(now as u64);
        data.append(&mut ts);
        proof {
            assert(owner_key@.subrange(0, 32) =~= owner_key@);
        }
        let digest = sha256_low64(&data);
        let dna = digest | DNA_LIVE_BIT;
        proof {
            assert((digest | 0x8000_0000_0000_0000u64) & 0x8000_0000_0000_0000u64
                == 0x8000_0000_0000_0000u64) by (bit_vector);
        }
        dna
    }

    /// Mint a zombie from a parent's DNA, forcing the live bit on.
    pub fn from_dna(dna: u64) -> (z: Zombie)
        ensures
            z == spec_from_dna(dna),
            z.dna & DNA_LIVE_BIT == DNA_LIVE_BIT,
    {
        let zombie_dna = dna | DNA_LIVE_BIT;
        proof {
            assert((dna | 0x8000_0000_0000_0000u64) & 0x8000_0000_0000_0000u64
                == 0x8000_0000_0000_0000u64) by (bit_vector);
        }
        Zombie { dna: zombie_dna, last_fight: 0, xp: 0 }
    }

    /// Whether this zombie may fight at time `now`.
    pub fn is_ready(&self, now: i64) -> (r: bool)
        ensures
            r == spec_is_ready(*self, now),
    {
        (now as i128) - (self.last_fight as i128) >= COOLDOWN_SECONDS as i128
    }

    /// Empty this slot, resetting every field to zero.
    pub fn remove(&mut self)
        ensures
            *final(self) == spec_clear(*old(self)),
    {
        self.dna = 0;
        self.last_fight = 0;
        self.xp = 0;
    }

    /// Grant one experience point. Fails with `ArithmeticOverflow`, and
    /// changes nothing, exactly when the counter is already at its
    /// maximum.
    pub fn add_xp(&mut self) -> (r: Result<(), GameErrorCode>)
        ensures
            old(self).xp < 255 ==> r == Ok::<(), GameErrorCode>(())
                && *final(self) == (Zombie { xp: (old(self).xp + 1) as u8, ..*old(self) }),
            old(self).xp == 255 ==> r == Err::<(), GameErrorCode>(
                GameErrorCode::ArithmeticOverflow,
            ) && *final(self) == *old(self),
    {
        if self.xp == 255 {
            Err(GameErrorCode::ArithmeticOverflow)
        } else {
            self.xp = self.xp + 1;
            Ok(())
        }
    }

    /// Stamp the cooldown: record `now` as the moment of the last fight.
    pub fn set_last_fight(&mut self, now: i64)
        ensures
            *final(self) == (Zombie { last_fight: now, ..*old(self) }),
    {
        self.last_fight = now;
    }
}

/// Forcing the live bit leaves it set, whatever the input code: every
/// zombie minted from a seed or a parent carries it.
pub proof fn lemma_forced_dna_live(dna: u64)
    ensures
        (dna | DNA_LIVE_BIT) & DNA_LIVE_BIT == DNA_LIVE_BIT,
        dna | DNA_LIVE_BIT != 0,
{
    assert((dna | 0x8000_0000_0000_0000u64) & 0x8000_0000_0000_0000u64
        == 0x8000_0000_0000_0000u64) by (bit_vector);
    assert(dna | 0x8000_0000_0000_0000u64 != 0u64) by (bit_vector);
}

/// Clearing a zombie twice leaves the same all-zero state as clearing it
/// once: removal is idempotent.
pub proof fn lemma_clear_idempotent(z: Zombie)
    ensures
        spec_clear(spec_clear(z)) == spec_clear(z),
{
}

/// A zombie is not ready while its last fight lies within the cooldown
/// period of `now`, and is ready from the sixtieth second on.
pub proof fn lemma_ready_boundary(z: Zombie, now: i64)
    ensures
        now - z.last_fight < COOLDOWN_SECONDS ==> !spec_is_ready(z, now),
        now - z.last_fight >= COOLDOWN_SECONDS ==> spec_is_ready(z, now),
{
}

} // verus!
