//! The 32-bit FNV-1a hash.

use vstd::prelude::*;
use vstd::string::StringSliceAdditionalSpecFns;

verus! {

/// The multiplier of the 32-bit FNV hashes.
pub const FNV1A_PRIME: u32 = 0x0100_0193;

/// The state that the 32-bit FNV hashes start from.
pub const FNV1A_SEED: u32 = 0x811C_9DC5;

/// One round of FNV-1a: the byte is mixed into the state by exclusive or,
/// and the product with the prime is reduced modulo 2^32.
pub open spec fn fnv1a_step(state: u32, byte: u8) -> u32 {
    (((state ^ (byte as u32)) * FNV1A_PRIME) % 0x1_0000_0000) as u32
}

/// The FNV-1a hash of a byte sequence: the rounds are folded over the bytes
/// from the first to the last, starting at the seed.
pub open spec fn fnv1a(bytes: Seq<u8>) -> u32 {
    bytes.fold_left(FNV1A_SEED, |state: u32, byte: u8| fnv1a_step(state, byte))
}

/// Hashes the UTF-8 bytes of `string` to a `u32` with FNV-1a.
pub fn string_hash_fnv1a(string: &str) -> (hash: u32)
    ensures
        hash == fnv1a(string.spec_bytes()),
{
    let bytes = string.as_bytes();
    let mut hash: u32 = FNV1A_SEED;
    let mut i: usize = 0;
    while i < bytes.len()
        invariant
            i <= bytes.len(),
            hash == fnv1a(bytes@.take(i as int)),
        decreases bytes.len() - i,
    {
        proof {
            let next = bytes@.take(i + 1);
            assert(next.drop_last() == bytes@.take(i as int));
            assert(next.last() == bytes@[i as int]);
        }
        hash = (hash ^ bytes[i] as u32).wrapping_mul(FNV1A_PRIME);
        i += 1;
    }
    proof {
        assert(bytes@.take(i as int) == bytes@);
    }
    hash
}

/// The hash of no bytes is the seed.
pub proof fn lemma_fnv1a_empty()
    ensures
        fnv1a(Seq::<u8>::empty()) == FNV1A_SEED,
{
}

/// The hash can be taken byte by byte: one more byte at the end is one more
/// round on the hash of what came before.
pub proof fn lemma_fnv1a_push(bytes: Seq<u8>, byte: u8)
    ensures
        fnv1a(bytes.push(byte)) == fnv1a_step(fnv1a(bytes), byte),
{
    assert(bytes.push(byte).drop_last() == bytes);
}

/// The hash is a function of the bytes alone: whatever two runs on strings
/// of the same bytes return, they return the same.
pub proof fn lemma_string_hash_fnv1a_deterministic(
    first: &str,
    second: &str,
    first_hash: u32,
    second_hash: u32,
)
    requires
        first.spec_bytes() == second.spec_bytes(),
        call_ensures(string_hash_fnv1a, (first,), first_hash),
        call_ensures(string_hash_fnv1a, (second,), second_hash),
    ensures
        first_hash == second_hash,
{
}

} // verus!
