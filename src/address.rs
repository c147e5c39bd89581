use vstd::prelude::*;
use vstd::bytes::{spec_u64_to_le_bytes, u64_to_le_bytes};

verus! {

/// A 32-byte account identity, as the host encodes it.
pub type Address = [u8; 32];

/// The address that the host derives from `seeds` for `program_id`, or `None`
/// when the seeds are refused or hash to a point on the curve (an address that
/// could have a private key).
pub uninterp spec fn created_program_address(seeds: Seq<Seq<u8>>, program_id: Seq<u8>) -> Option<Seq<u8>>;

pub open spec fn seeds_view(seeds: Seq<Vec<u8>>) -> Seq<Seq<u8>> {
    seeds.map_values(|s: Vec<u8>| s@)
}

/// The first bump, from `bump` down to 1, for which `seeds` followed by that
/// bump derive an address, together with that address.
pub open spec fn found_program_address(seeds: Seq<Seq<u8>>, program_id: Seq<u8>, bump: int) -> Option<(Seq<u8>, u8)>
    decreases bump,
{
    if bump < 1 || bump > 255 {
        None
    } else {
        match created_program_address(seeds.push(seq![bump as u8]), program_id) {
            Some(a) => Some((a, bump as u8)),
            None => found_program_address(seeds, program_id, bump - 1),
        }
    }
}

/// The canonical derivation: the highest bump that yields an address.
pub open spec fn canonical_program_address(seeds: Seq<Seq<u8>>, program_id: Seq<u8>) -> Option<(Seq<u8>, u8)> {
    found_program_address(seeds, program_id, 255)
}

pub open spec fn found_view(r: Option<(Address, u8)>) -> Option<(Seq<u8>, u8)> {
    match r {
        Some((a, b)) => Some((a@, b)),
        None => None,
    }
}

/// Relies on pinocchio's `Address::create_program_address` (solana-address):
/// the hash of the seeds, the program id and a fixed marker, refused when
/// there are too many or too long seeds or when the hash lies on the curve.
/// Its result depends on the arguments alone.
#[verifier::external_body]
pub(crate) fn create_program_address(seeds: &Vec<Vec<u8>>, program_id: &Address) -> (r: Option<Address>)
    ensures
        match r {
            Some(a) => created_program_address(seeds_view(seeds@), program_id@) == Some(a@),
            None => created_program_address(seeds_view(seeds@), program_id@) is None,
        },
{
    let mut refs: Vec<&[u8]> = Vec::new();
    for s in seeds.iter() {
        refs.push(s.as_slice());
    }
    let program_id = pinocchio::Address::new_from_array(*program_id);
    pinocchio::Address::create_program_address(&refs, &program_id).ok().map(|a| a.to_bytes())
}

/// Relies on pinocchio's `Address::try_find_program_address` (solana-address):
/// off the chain it tries the bumps 255, 254, ..., 1 in turn, appending each
/// as one more seed, and returns the first that `create_program_address`
/// accepts, with that address; `None` when none does.
#[verifier::external_body]
pub(crate) fn find_program_address(seeds: &Vec<Vec<u8>>, program_id: &Address) -> (r: Option<(Address, u8)>)
    ensures
        found_view(r) == canonical_program_address(seeds_view(seeds@), program_id@),
{
    let mut refs: Vec<&[u8]> = Vec::new();
    for s in seeds.iter() {
        refs.push(s.as_slice());
    }
    let program_id = pinocchio::Address::new_from_array(*program_id);
    pinocchio::Address::try_find_program_address(&refs, &program_id).map(|(a, b)| (a.to_bytes(), b))
}

/// Whether two addresses are the same identity.
pub fn address_eq(a: &Address, b: &Address) -> (r: bool)
    ensures
        r == (a@ == b@),
{
    let mut i: usize = 0;
    while i < 32
        invariant
            i <= 32,
            a@.len() == 32,
            b@.len() == 32,
            forall|j: int| 0 <= j < i ==> a@[j] == b@[j],
        decreases 32 - i,
    {
        if a[i] != b[i] {
            return false;
        }
        i = i + 1;
    }
    assert(a@ =~= b@);
    true
}

/// The domain tag of the escrow record's address.
pub open spec fn escrow_tag() -> Seq<u8> {
    seq![0x65u8, 0x73u8, 0x63u8, 0x72u8, 0x6fu8, 0x77u8]
}

/// The domain tag of the vault's address.
pub open spec fn vault_tag() -> Seq<u8> {
    seq![0x76u8, 0x61u8, 0x75u8, 0x6cu8, 0x74u8]
}

/// `"escrow" ‖ maker ‖ seed`, the seeds of the escrow record's address.
pub open spec fn escrow_seed_list(maker: Seq<u8>, seed: u64) -> Seq<Seq<u8>> {
    seq![escrow_tag(), maker, spec_u64_to_le_bytes(seed)]
}

/// `"vault" ‖ escrow`, the seeds of the vault's address.
pub open spec fn vault_seed_list(escrow: Seq<u8>) -> Seq<Seq<u8>> {
    seq![vault_tag(), escrow]
}

pub(crate) fn address_bytes(a: &Address) -> (r: Vec<u8>)
    ensures
        r@ == a@,
{
    vstd::slice::slice_to_vec(a.as_slice())
}

/// The seeds of the escrow record's address, without a bump.
pub fn escrow_seeds(maker: &Address, seed: u64) -> (r: Vec<Vec<u8>>)
    ensures
        seeds_view(r@) == escrow_seed_list(maker@, seed),
{
    let tag: Vec<u8> = vec![0x65u8, 0x73u8, 0x63u8, 0x72u8, 0x6fu8, 0x77u8];
    let r: Vec<Vec<u8>> = vec![tag, address_bytes(maker), u64_to_le_bytes(seed)];
    assert(seeds_view(r@) =~= escrow_seed_list(maker@, seed));
    r
}

/// The seeds of the vault's address, without a bump.
pub fn vault_seeds(escrow: &Address) -> (r: Vec<Vec<u8>>)
    ensures
        seeds_view(r@) == vault_seed_list(escrow@),
{
    let tag: Vec<u8> = vec![0x76u8, 0x61u8, 0x75u8, 0x6cu8, 0x74u8];
    let r: Vec<Vec<u8>> = vec![tag, address_bytes(escrow)];
    assert(seeds_view(r@) =~= vault_seed_list(escrow@));
    r
}

/// The canonical escrow address of `(maker, seed)` and its bump.
pub fn derive_escrow(maker: &Address, seed: u64, program_id: &Address) -> (r: Option<(Address, u8)>)
    ensures
        found_view(r) == canonical_program_address(escrow_seed_list(maker@, seed), program_id@),
{
    let seeds = escrow_seeds(maker, seed);
    find_program_address(&seeds, program_id)
}

/// The canonical vault address of an escrow address and its bump.
pub fn derive_vault(escrow: &Address, program_id: &Address) -> (r: Option<(Address, u8)>)
    ensures
        found_view(r) == canonical_program_address(vault_seed_list(escrow@), program_id@),
{
    let seeds = vault_seeds(escrow);
    find_program_address(&seeds, program_id)
}

/// The escrow address that `(maker, seed)` derive with a given bump, as the
/// host checks it when the escrow signs.
pub fn escrow_address(maker: &Address, seed: u64, bump: u8, program_id: &Address) -> (r: Option<Address>)
    ensures
        match r {
            Some(a) => created_program_address(escrow_seed_list(maker@, seed).push(seq![bump]), program_id@) == Some(a@),
            None => created_program_address(escrow_seed_list(maker@, seed).push(seq![bump]), program_id@) is None,
        },
{
    let mut seeds = escrow_seeds(maker, seed);
    let last: Vec<u8> = vec![bump];
    assert(last@ =~= seq![bump]);
    seeds.push(last);
    assert(seeds_view(seeds@).drop_last() =~= escrow_seed_list(maker@, seed));
    assert(seeds_view(seeds@) =~= escrow_seed_list(maker@, seed).push(seq![bump]));
    create_program_address(&seeds, program_id)
}

} // verus!
