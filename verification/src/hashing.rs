//! The registration hash: a 32-bit FNV-1a digest of a unit's
//! registration string (its stable name plus a versioning token). The
//! scheduler uses it as a collision-resistant identity key, queried
//! once at load time.

use vstd::prelude::*;
use vstd::string::StringSliceAdditionalSpecFns;

verus! {

/// FNV-1a 32-bit offset basis.
pub const HASH_OFFSET_BASIS: u32 = 0x811C9DC5;

/// FNV-1a 32-bit prime.
pub const HASH_PRIME: u32 = 16777619;

/// One FNV-1a round: fold a byte in, then multiply modulo 2^32.
pub open spec fn hash_step(h: u32, b: u8) -> u32 {
    (((h ^ b as u32) as nat * HASH_PRIME as nat) % 0x1_0000_0000) as u32
}

/// FNV-1a folded over `s`, starting from state `h`.
pub open spec fn hash_from(h: u32, s: Seq<u8>) -> u32
    decreases s.len(),
{
    if s.len() == 0 {
        h
    } else {
        hash_from(hash_step(h, s[0]), s.drop_first())
    }
}

/// The registration hash of a byte string.
pub open spec fn spec_register_hash(s: Seq<u8>) -> u32 {
    hash_from(HASH_OFFSET_BASIS, s)
}

/// The registration hash of a unit's registration string.
pub fn register_hash(name: &str) -> (r: u32)
    ensures
        r == spec_register_hash(name.spec_bytes()),
{
    let bytes = name.as_bytes();
    let mut h: u32 = HASH_OFFSET_BASIS;
    let mut i: usize = 0;
    proof {
        assert(bytes@.skip(0) =~= bytes@);
    }
    while i < bytes.len()
        invariant
            i <= bytes@.len(),
            hash_from(h, bytes@.skip(i as int)) == spec_register_hash(bytes@),
        decreases bytes@.len() - i,
    {
        let ghost pre = h;
        let b = bytes[i];
        h = (h ^ b as u32).wrapping_mul(HASH_PRIME);
        proof {
            assert(h == hash_step(pre, b));
            assert(bytes@.skip(i as int)[0] == bytes@[i as int]);
            assert(bytes@.skip(i as int).drop_first() =~= bytes@.skip(i as int + 1));
        }
        i = i + 1;
    }
    proof {
        assert(bytes@.skip(i as int) =~= Seq::<u8>::empty());
    }
    h
}

} // verus!
