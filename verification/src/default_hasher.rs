//! The 64-bit hash of the standard library's default hasher.

use std::collections::hash_map::DefaultHasher;
use std::hash::Hash;
use std::hash::Hasher;
use vstd::prelude::*;
use vstd::std_specs::hash::DefaultHasherAdditionalSpecFns;
use vstd::string::StringSliceAdditionalSpecFns;
use vstd::utf8::encode_utf8_decode_utf8;

verus! {

/// The writes that the standard library's `Hash` impl of `str` issues to a
/// hasher for a string of the given characters.
pub uninterp spec fn str_hash_writes(text: Seq<char>) -> Seq<Seq<u8>>;

/// Feeds `string` into `state` through `<str as Hash>::hash`.
///
/// Trusted: the writes that reach the hasher are taken to depend on the
/// characters of the string alone, and to follow those already recorded.
/// Nothing is claimed of what the writes are.
#[verifier::external_body]
fn feed_str(string: &str, state: &mut DefaultHasher)
    ensures
        final(state)@ == old(state)@ + str_hash_writes(string@),
{
    string.hash(state)
}

/// The digest that a fresh default hasher gives after a string of the given
/// characters was fed into it.
pub open spec fn default_hash(text: Seq<char>) -> u64 {
    DefaultHasher::spec_finish(str_hash_writes(text))
}

/// Hashes `string` to a `u64` with the standard library's default hasher,
/// the one that `HashMap` uses, in its unkeyed state.
pub fn string_hash_default(string: &str) -> (hash: u64)
    ensures
        hash == default_hash(string@),
{
    let mut hasher = DefaultHasher::new();
    feed_str(string, &mut hasher);
    assert(hasher@ =~= str_hash_writes(string@));
    hasher.finish()
}

/// The hash is a function of the string alone: whatever two runs on strings
/// of the same bytes return, they return the same.
pub proof fn lemma_string_hash_default_deterministic(
    first: &str,
    second: &str,
    first_hash: u64,
    second_hash: u64,
)
    requires
        first.spec_bytes() == second.spec_bytes(),
        call_ensures(string_hash_default, (first,), first_hash),
        call_ensures(string_hash_default, (second,), second_hash),
    ensures
        first_hash == second_hash,
{
    encode_utf8_decode_utf8(first@);
    encode_utf8_decode_utf8(second@);
}

} // verus!
