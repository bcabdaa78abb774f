//! Deterministic name hashing.
//!
//! Identifiers for interfaces and methods are derived from their names with a
//! Fowler–Noll–Vo (FNV-1a) hash over the name's characters: 32 bits for the
//! secondary method hash, truncated to 16 bits for wire-level identifiers.
//! Both the definition emitter and the lookup generator must apply exactly
//! this function, so it is fixed here once.

use vstd::prelude::*;
use vstd::string::StrSliceExecFns;

verus! {

/// Offset basis of the 32-bit FNV-1a hash.
pub const FNV_OFFSET: u32 = 0x811c_9dc5;

/// Prime of the 32-bit FNV-1a hash.
pub const FNV_PRIME: u32 = 16_777_619;

/// One FNV-1a round: fold one character into the running hash.
pub open spec fn hash32_step(h: u32, c: char) -> u32 {
    ((((h ^ (c as u32)) as int) * (FNV_PRIME as int)) % 0x1_0000_0000) as u32
}

/// 32-bit FNV-1a hash of a character sequence.
pub open spec fn hash32_spec(s: Seq<char>) -> u32
    decreases s.len(),
{
    if s.len() == 0 {
        FNV_OFFSET
    } else {
        hash32_step(hash32_spec(s.drop_last()), s.last())
    }
}

/// 16-bit identifier hash: the 32-bit hash truncated to its low 16 bits.
pub open spec fn hash16_spec(s: Seq<char>) -> u16 {
    (hash32_spec(s) & 0xffff) as u16
}

/// 32-bit name hash, used as the type-level key of a method descriptor.
pub fn hash32(s: &str) -> (r: u32)
    ensures
        r == hash32_spec(s@),
{
    let n = s.unicode_len();
    let mut h: u32 = FNV_OFFSET;
    let mut i: usize = 0;
    while i < n
        invariant
            n == s@.len(),
            i <= n,
            h == hash32_spec(s@.take(i as int)),
        decreases n - i,
    {
        let c = s.get_char(i);
        let wide: u64 = ((h ^ (c as u32)) as u64) * (FNV_PRIME as u64);
        proof {
            assert(s@.take(i + 1).drop_last() =~= s@.take(i as int));
            assert(s@.take(i + 1).last() == s@[i as int]);
        }
        h = (wide % 0x1_0000_0000) as u32;
        i += 1;
    }
    proof {
        assert(s@.take(n as int) =~= s@);
    }
    h
}

/// 16-bit name hash, used for wire-level identifiers derived from names.
pub fn hash16(s: &str) -> (r: u16)
    ensures
        r == hash16_spec(s@),
{
    let h = hash32(s);
    let low = h & 0xffff;
    proof {
        assert(h & 0xffff <= 0xffff) by (bit_vector);
    }
    low as u16
}

} // verus!
