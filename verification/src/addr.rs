//! Deterministic sub-record addressing.
//!
//! Every record managed by the service lives at an address derived from a
//! typed seed tuple: a namespace tag plus the authoritative fields that
//! identify the record. The derivation itself is the program-derived-address
//! search of the Solana SDK; its result is named by the uninterpreted
//! function [`pda_of`], and everything the service proves about addresses
//! rests on the derivation being a pure function of the seeds and the
//! deriving program's own address.

use vstd::prelude::*;
use vstd::bytes::{lemma_auto_spec_u64_to_from_le_bytes, spec_u64_from_le_bytes,
    spec_u64_to_le_bytes, u64_from_le_bytes, u64_to_le_bytes};
use vstd::slice::slice_subrange;
use anchor_lang::prelude::Pubkey;

verus! {

/// A 32-byte account address, held as four 64-bit little-endian words.
#[derive(Clone, Copy, Debug, PartialEq, Eq, Structural)]
pub struct Address {
    pub w0: u64,
    pub w1: u64,
    pub w2: u64,
    pub w3: u64,
}

/// The 32 bytes of an address, little-endian word by word, in the order the
/// derivation consumes them when an address is itself used as a seed.
pub open spec fn addr_bytes(a: Address) -> Seq<u8> {
    spec_u64_to_le_bytes(a.w0) + spec_u64_to_le_bytes(a.w1) + spec_u64_to_le_bytes(a.w2)
        + spec_u64_to_le_bytes(a.w3)
}

/// The result of the program-derived-address search for a seed tuple and a
/// deriving program: the found address and its salt (bump seed), or `None`
/// in the statistically improbable event that no salt yields a valid
/// address. A pure function of its arguments: same seeds, same program,
/// same result, on every call.
pub uninterp spec fn pda_of(seeds: Seq<Seq<u8>>, program: Address) -> Option<(Address, u8)>;

/// Relies on `Pubkey::try_find_program_address` of the Solana SDK
/// (re-exported by anchor_lang): the search is a deterministic, total
/// function of the seed slices and the program id, returning `None` instead
/// of panicking when no bump seed is viable or the seeds are out of range.
#[verifier::external_body]
pub fn try_find_program_address(seeds: &Vec<Vec<u8>>, program: &Address) -> (r: Option<
    (Address, u8),
>)
    ensures
        r == pda_of(seeds.deep_view(), *program),
{
    let refs: Vec<&[u8]> = seeds.iter().map(|s| s.as_slice()).collect();
    let pid = Pubkey::new_from_array(addr_to_bytes(program).try_into().unwrap());
    let (found, salt) = Pubkey::try_find_program_address(&refs, &pid)?;
    Some((addr_from_bytes(&found.to_bytes()), salt))
}

/// The address whose 32 bytes are `b`.
pub fn addr_from_bytes(b: &[u8]) -> (r: Address)
    requires
        b@.len() == 32,
    ensures
        addr_bytes(r) == b@,
{
    let r = Address {
        w0: u64_from_le_bytes(slice_subrange(b, 0, 8)),
        w1: u64_from_le_bytes(slice_subrange(b, 8, 16)),
        w2: u64_from_le_bytes(slice_subrange(b, 16, 24)),
        w3: u64_from_le_bytes(slice_subrange(b, 24, 32)),
    };
    proof {
        lemma_auto_spec_u64_to_from_le_bytes();
        assert(spec_u64_to_le_bytes(r.w0) == b@.subrange(0, 8));
        assert(spec_u64_to_le_bytes(r.w1) == b@.subrange(8, 16));
        assert(spec_u64_to_le_bytes(r.w2) == b@.subrange(16, 24));
        assert(spec_u64_to_le_bytes(r.w3) == b@.subrange(24, 32));
        assert(addr_bytes(r) =~= b@);
    }
    r
}

/// The bytes of an address, for use as a seed part.
pub fn addr_to_bytes(a: &Address) -> (r: Vec<u8>)
    ensures
        r@ == addr_bytes(*a),
{
    let mut r = u64_to_le_bytes(a.w0);
    let mut r1 = u64_to_le_bytes(a.w1);
    let mut r2 = u64_to_le_bytes(a.w2);
    let mut r3 = u64_to_le_bytes(a.w3);
    r.append(&mut r1);
    r.append(&mut r2);
    r.append(&mut r3);
    r
}

/// The namespace tag of profile records: the ASCII bytes of "profile".
pub open spec fn profile_tag() -> Seq<u8> {
    seq![112u8, 114u8, 111u8, 102u8, 105u8, 108u8, 101u8]
}

/// The namespace tag of vault records: the ASCII bytes of "vault".
pub open spec fn vault_tag() -> Seq<u8> {
    seq![118u8, 97u8, 117u8, 108u8, 116u8]
}

/// The namespace tag of like records: the ASCII bytes of "like".
pub open spec fn like_tag() -> Seq<u8> {
    seq![108u8, 105u8, 107u8, 101u8]
}

/// The seed tuple of a profile record: tag, owner, profile name.
pub open spec fn profile_seeds(authority: Address, name: Seq<u8>) -> Seq<Seq<u8>> {
    seq![profile_tag(), addr_bytes(authority), name]
}

/// The seed tuple of a vault: tag and the paired profile's address.
pub open spec fn vault_seeds(profile: Address) -> Seq<Seq<u8>> {
    seq![vault_tag(), addr_bytes(profile)]
}

/// The seed tuple of a like record: tag, contributor, profile, and the
/// profile's like count at creation time, little-endian.
pub open spec fn like_seeds(liker: Address, profile: Address, count: u64) -> Seq<Seq<u8>> {
    seq![like_tag(), addr_bytes(liker), addr_bytes(profile), spec_u64_to_le_bytes(count)]
}

/// The derived address and salt of the profile record owned by `authority`
/// under `name`.
pub open spec fn profile_key_of(program: Address, authority: Address, name: Seq<u8>) -> Option<
    (Address, u8),
> {
    pda_of(profile_seeds(authority, name), program)
}

/// The derived address and salt of the vault paired with `profile`.
pub open spec fn vault_key_of(program: Address, profile: Address) -> Option<(Address, u8)> {
    pda_of(vault_seeds(profile), program)
}

/// The derived address and salt of the like record for `liker`'s
/// contribution number `count` to `profile`.
pub open spec fn like_key_of(program: Address, liker: Address, profile: Address, count: u64) -> Option<
    (Address, u8),
> {
    pda_of(like_seeds(liker, profile, count), program)
}

fn profile_tag_bytes() -> (r: Vec<u8>)
    ensures
        r@ == profile_tag(),
{
    let mut r: Vec<u8> = Vec::new();
    r.push(112);
    r.push(114);
    r.push(111);
    r.push(102);
    r.push(105);
    r.push(108);
    r.push(101);
    proof {
        assert(r@ =~= profile_tag());
    }
    r
}

fn vault_tag_bytes() -> (r: Vec<u8>)
    ensures
        r@ == vault_tag(),
{
    let mut r: Vec<u8> = Vec::new();
    r.push(118);
    r.push(97);
    r.push(117);
    r.push(108);
    r.push(116);
    proof {
        assert(r@ =~= vault_tag());
    }
    r
}

fn like_tag_bytes() -> (r: Vec<u8>)
    ensures
        r@ == like_tag(),
{
    let mut r: Vec<u8> = Vec::new();
    r.push(108);
    r.push(105);
    r.push(107);
    r.push(101);
    proof {
        assert(r@ =~= like_tag());
    }
    r
}

/// Re-derives the address of the profile record owned by `authority` under
/// `name`.
pub fn derive_profile_key(program: &Address, authority: &Address, name: &Vec<u8>) -> (r: Option<
    (Address, u8),
>)
    ensures
        r == profile_key_of(*program, *authority, name@),
{
    let mut seeds: Vec<Vec<u8>> = Vec::new();
    seeds.push(profile_tag_bytes());
    seeds.push(addr_to_bytes(authority));
    seeds.push(crate::state::bytes_clone(name));
    proof {
        assert(seeds.deep_view() =~~= profile_seeds(*authority, name@));
    }
    try_find_program_address(&seeds, program)
}

/// Re-derives the address of the vault paired with `profile`.
pub fn derive_vault_key(program: &Address, profile: &Address) -> (r: Option<(Address, u8)>)
    ensures
        r == vault_key_of(*program, *profile),
{
    let mut seeds: Vec<Vec<u8>> = Vec::new();
    seeds.push(vault_tag_bytes());
    seeds.push(addr_to_bytes(profile));
    proof {
        assert(seeds.deep_view() =~~= vault_seeds(*profile));
    }
    try_find_program_address(&seeds, program)
}

/// Re-derives the address of the like record for `liker`'s contribution
/// number `count` to `profile`.
pub fn derive_like_key(program: &Address, liker: &Address, profile: &Address, count: u64) -> (r:
    Option<(Address, u8)>)
    ensures
        r == like_key_of(*program, *liker, *profile, count),
{
    let mut seeds: Vec<Vec<u8>> = Vec::new();
    seeds.push(like_tag_bytes());
    seeds.push(addr_to_bytes(liker));
    seeds.push(addr_to_bytes(profile));
    seeds.push(u64_to_le_bytes(count));
    proof {
        assert(seeds.deep_view() =~~= like_seeds(*liker, *profile, count));
    }
    try_find_program_address(&seeds, program)
}

/// Address derivation is a function of its seeds: two derivations from the
/// same seed tuple and the same deriving program yield the same result.
pub proof fn lemma_derive_deterministic(
    r1: Option<(Address, u8)>,
    r2: Option<(Address, u8)>,
    seeds: Seq<Seq<u8>>,
    program: Address,
)
    requires
        r1 == pda_of(seeds, program),
        r2 == pda_of(seeds, program),
    ensures
        r1 == r2,
{
}

} // verus!
