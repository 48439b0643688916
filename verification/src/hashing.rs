//! Content hashes. Every hash here comes from the standard library's default
//! hasher in its fixed initial state, so equal values give equal hashes. The
//! value of a hash is never computed in a contract: each is known by name only.

use std::collections::hash_map::DefaultHasher;
use std::hash::BuildHasher;
use std::hash::BuildHasherDefault;
use vstd::prelude::*;

verus! {

/// Hash of a key code.
pub uninterp spec fn key_code_hash(code: u16) -> u64;

/// Hash of a key code followed by a modifier bit pattern.
pub uninterp spec fn key_combination_hash(code: u16, modifier_bits: u8) -> u64;

/// Hash of a string.
pub uninterp spec fn str_hash(s: Seq<char>) -> u64;

/// Hash of a list of strings.
pub uninterp spec fn str_list_hash(list: Seq<Seq<char>>) -> u64;

/// Calls `BuildHasher::hash_one` of a `BuildHasherDefault<DefaultHasher>` on a
/// `u16`: the hash of the value by a fresh `DefaultHasher`, which has no
/// per-process seed. The contract only names the result.
#[verifier::external_body]
pub(crate) fn hash_key_code(code: u16) -> (h: u64)
    ensures
        h == key_code_hash(code),
{
    BuildHasherDefault::<DefaultHasher>::default().hash_one(code)
}

/// Calls `BuildHasher::hash_one` of a `BuildHasherDefault<DefaultHasher>` on
/// the pair of a key code and a bit pattern, which feeds the hasher the code
/// and then the bits. The contract only names the result.
#[verifier::external_body]
pub(crate) fn hash_key_combination(code: u16, modifier_bits: u8) -> (h: u64)
    ensures
        h == key_combination_hash(code, modifier_bits),
{
    BuildHasherDefault::<DefaultHasher>::default().hash_one((code, modifier_bits))
}

/// Calls `BuildHasher::hash_one` of a `BuildHasherDefault<DefaultHasher>` on a
/// string slice. The contract only names the result.
#[verifier::external_body]
pub(crate) fn hash_str(s: &str) -> (h: u64)
    ensures
        h == str_hash(s@),
{
    BuildHasherDefault::<DefaultHasher>::default().hash_one(s)
}

/// Calls `BuildHasher::hash_one` of a `BuildHasherDefault<DefaultHasher>` on a
/// slice of strings. The contract only names the result.
#[verifier::external_body]
pub(crate) fn hash_str_list(list: &[String]) -> (h: u64)
    ensures
        h == str_list_hash(list.deep_view()),
{
    BuildHasherDefault::<DefaultHasher>::default().hash_one(list)
}

} // verus!
