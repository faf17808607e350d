//! The address deriver: a pure map from seed material to a storage address
//! and the proof value ("bump") that authorizes creating a region there.
//!
//! For the counter region the seed material is the owner's address alone;
//! for a todo region it is the owner's address followed by the item index
//! in big-endian bytes.  Every handler re-derives the address it was handed
//! and rejects the request when the two differ.

use crate::codec::clone_bytes;
use vstd::prelude::*;

verus! {

/// What the runtime's address derivation yields for given seed material
/// and program identity: `Some` of the derived 32-byte address and its
/// bump, or `None` when no address can be derived from these seeds.  The
/// derivation is deterministic: a function of its arguments alone.
pub uninterp spec fn pda_of(seeds: Seq<Seq<u8>>, program_id: Seq<u8>) -> Option<(Seq<u8>, u8)>;

/// The genuine runtime allocator's address: the all-zero 32-byte address.
pub open spec fn spec_system_program_id() -> Seq<u8> {
    Seq::new(32, |i: int| 0u8)
}

/// The derived address of an owner's counter region.
pub open spec fn spec_counter_pda(owner: Seq<u8>, program_id: Seq<u8>) -> Option<(Seq<u8>, u8)> {
    pda_of(seq![owner], program_id)
}

/// The derived address of an owner's todo region for one item index.
pub open spec fn spec_todo_pda(owner: Seq<u8>, index: u64, program_id: Seq<u8>) -> Option<
    (Seq<u8>, u8),
> {
    pda_of(seq![owner, spec_u64_to_be_bytes(index)], program_id)
}

/// The big-endian bytes of an unsigned 64-bit value, most significant
/// byte first.
pub open spec fn spec_u64_to_be_bytes(x: u64) -> Seq<u8> {
    seq![
        (x >> 56) as u8,
        (x >> 48) as u8,
        (x >> 40) as u8,
        (x >> 32) as u8,
        (x >> 24) as u8,
        (x >> 16) as u8,
        (x >> 8) as u8,
        x as u8,
    ]
}

/// Computes the big-endian bytes of an unsigned 64-bit value.
pub fn u64_be_bytes(x: u64) -> (v: Vec<u8>)
    ensures
        v@ == spec_u64_to_be_bytes(x),
{
    let v: Vec<u8> = vec![
        (x >> 56) as u8,
        (x >> 48) as u8,
        (x >> 40) as u8,
        (x >> 32) as u8,
        (x >> 24) as u8,
        (x >> 16) as u8,
        (x >> 8) as u8,
        x as u8,
    ];
    assert(v@ =~= spec_u64_to_be_bytes(x));
    v
}

/// Relies on `Pubkey::try_find_program_address` of the solana-program
/// crate: a deterministic search over bump seeds that yields a derived
/// 32-byte address and its bump, or `None` when no bump works or a seed
/// is unusable.
#[verifier::external_body]
fn try_find_pda(seeds: &Vec<Vec<u8>>, program_id: &Vec<u8>) -> (r: Option<(Vec<u8>, u8)>)
    requires
        program_id@.len() == 32,
    ensures
        match r {
            Some(p) => p.0@.len() == 32 && pda_of(seeds.deep_view(), program_id@) == Some(
                (p.0@, p.1),
            ),
            None => pda_of(seeds.deep_view(), program_id@) is None,
        },
{
    let pid = solana_program::pubkey::Pubkey::new_from_array(
        program_id.as_slice().try_into().unwrap(),
    );
    let seed_refs: Vec<&[u8]> = seeds.iter().map(|s| s.as_slice()).collect();
    solana_program::pubkey::Pubkey::try_find_program_address(&seed_refs, &pid)
        .map(|(key, bump)| (key.to_bytes().to_vec(), bump))
}

/// Relies on `system_program::id` of the solana-program crate: the runtime
/// allocator's address is the all-zero 32-byte address.
#[verifier::external_body]
pub(crate) fn system_program_id() -> (k: Vec<u8>)
    ensures
        k@ == spec_system_program_id(),
{
    solana_program::system_program::id().to_bytes().to_vec()
}

/// Derives the address of an owner's counter region.
pub fn derive_counter_address(owner: &Vec<u8>, program_id: &Vec<u8>) -> (r: Option<(Vec<u8>, u8)>)
    requires
        program_id@.len() == 32,
    ensures
        match r {
            Some(p) => p.0@.len() == 32 && spec_counter_pda(owner@, program_id@) == Some(
                (p.0@, p.1),
            ),
            None => spec_counter_pda(owner@, program_id@) is None,
        },
{
    let mut seeds: Vec<Vec<u8>> = Vec::new();
    seeds.push(clone_bytes(owner));
    proof {
        assert(seeds.deep_view() =~~= seq![owner@]);
    }
    try_find_pda(&seeds, program_id)
}

/// Derives the address of an owner's todo region for one item index.
pub fn derive_todo_address(owner: &Vec<u8>, index: u64, program_id: &Vec<u8>) -> (r: Option<
    (Vec<u8>, u8),
>)
    requires
        program_id@.len() == 32,
    ensures
        match r {
            Some(p) => p.0@.len() == 32 && spec_todo_pda(owner@, index, program_id@) == Some(
                (p.0@, p.1),
            ),
            None => spec_todo_pda(owner@, index, program_id@) is None,
        },
{
    let mut seeds: Vec<Vec<u8>> = Vec::new();
    seeds.push(clone_bytes(owner));
    seeds.push(u64_be_bytes(index));
    proof {
        assert(seeds.deep_view() =~~= seq![owner@, spec_u64_to_be_bytes(index)]);
    }
    try_find_pda(&seeds, program_id)
}

} // verus!
