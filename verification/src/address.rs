//! Deterministic addresses of the bridge's records.
//!
//! An address is derived from a list of seeds and the program's id. The seeds
//! of a record are a domain tag where the record has one, then its key
//! material: keys and addresses as their 32 bytes, integers little-endian in
//! their full width, a chain id as one byte.

use crate::codec::{
    array_of, lemma_array_of, lemma_u32_at, lemma_u32_le_injective, lemma_u64_at,
    lemma_u64_le_injective, push_u32, push_u64, to_vec, u32_le, u64_le,
};
use crate::error::Error;
use crate::keys::{ForeignAddress, Pubkey};
use crate::state::Bridge;
use vstd::prelude::*;

verus! {

/// Domain tag of the bridge itself: the text `bridge`.
pub const TAG_BRIDGE: [u8; 6] = [98, 114, 105, 100, 103, 101];

/// Domain tag of custody accounts: the text `custody`.
pub const TAG_CUSTODY: [u8; 7] = [99, 117, 115, 116, 111, 100, 121];

/// Domain tag of claim records: the text `claim`.
pub const TAG_CLAIM: [u8; 5] = [99, 108, 97, 105, 109];

/// Domain tag of wrapped assets: the text `wrapped`.
pub const TAG_WRAPPED: [u8; 7] = [119, 114, 97, 112, 112, 101, 100];

/// Domain tag of transfer proposals: the text `transfer`.
pub const TAG_TRANSFER: [u8; 8] = [116, 114, 97, 110, 115, 102, 101, 114];

/// The address that the seeds derive under a program, if they derive one.
pub uninterp spec fn spec_program_address(seeds: Seq<Seq<u8>>, program_id: Seq<u8>) -> Option<
    Seq<u8>,
>;

/// The seeds that a list of byte strings holds.
pub open spec fn seeds_view(seeds: Seq<Vec<u8>>) -> Seq<Seq<u8>> {
    seeds.map_values(|s: Vec<u8>| s@)
}

/// The derived address as a key, or the error for seeds that derive none.
pub open spec fn derive_spec(seeds: Seq<Seq<u8>>, program_id: Pubkey) -> Result<Pubkey, Error> {
    match spec_program_address(seeds, program_id@) {
        Some(k) => Ok(Pubkey { bytes: array_of::<32>(k) }),
        None => Err(Error::InvalidProgramAddress),
    }
}

/// Calls `Pubkey::create_program_address` of solana_sdk: a hash of the seeds,
/// the program id and a marker, refused where it is a point of the curve or a
/// seed is over the limits. The result is a function of the seeds and the
/// program id alone; nothing more is claimed of it.
#[verifier::external_body]
fn create_program_address(seeds: &Vec<Vec<u8>>, program_id: &Pubkey) -> (r: Option<Pubkey>)
    ensures
        match r {
            Some(k) => spec_program_address(seeds_view(seeds@), program_id@) == Some(k@),
            None => spec_program_address(seeds_view(seeds@), program_id@) is None,
        },
{
    let parts: Vec<&[u8]> = seeds.iter().map(|s| s.as_slice()).collect();
    let id = solana_sdk::pubkey::Pubkey::new_from_array(program_id.bytes);
    match solana_sdk::pubkey::Pubkey::create_program_address(&parts, &id) {
        Ok(k) => Some(Pubkey { bytes: k.to_bytes() }),
        Err(_) => None,
    }
}

/// What a derivation returns for each outcome of the address computation.
pub fn address_or_error(found: Option<Pubkey>) -> (r: Result<Pubkey, Error>)
    ensures
        r == match found {
            Some(k) => Ok::<Pubkey, Error>(k),
            None => Err::<Pubkey, Error>(Error::InvalidProgramAddress),
        },
{
    match found {
        Some(k) => Ok(k),
        None => Err(Error::InvalidProgramAddress),
    }
}

/// Derives the address of `seeds` under `program_id`.
pub fn derive_address(seeds: &Vec<Vec<u8>>, program_id: &Pubkey) -> (r: Result<Pubkey, Error>)
    ensures
        r == derive_spec(seeds_view(seeds@), *program_id),
{
    let found: Option<Pubkey> = create_program_address(seeds, program_id);
    proof {
        if let Some(k) = found {
            lemma_array_of(k.bytes);
        }
    }
    address_or_error(found)
}

/// Seeds of the bridge record.
pub open spec fn bridge_seeds() -> Seq<Seq<u8>> {
    seq![TAG_BRIDGE@]
}

/// Seeds of the custody account of a mint.
pub open spec fn custody_seeds(bridge: Pubkey, mint: Pubkey) -> Seq<Seq<u8>> {
    seq![TAG_CUSTODY@, bridge@, mint@]
}

/// Seeds of the claim record of a message hash.
pub open spec fn claim_seeds(bridge: Pubkey, hash: [u8; 32]) -> Seq<Seq<u8>> {
    seq![TAG_CLAIM@, bridge@, hash@]
}

/// Seeds of the guardian set with an index.
pub open spec fn guardian_set_seeds(bridge: Pubkey, index: u32) -> Seq<Seq<u8>> {
    seq![bridge@, u32_le(index)]
}

/// Seeds of the wrapped form of a foreign asset.
pub open spec fn wrapped_asset_seeds(bridge: Pubkey, asset_chain: u8, asset: ForeignAddress) -> Seq<
    Seq<u8>,
> {
    seq![TAG_WRAPPED@, bridge@, seq![asset_chain], asset@]
}

/// Seeds of a transfer proposal.
pub open spec fn transfer_seeds(
    asset_chain: u8,
    asset: ForeignAddress,
    target_chain: u8,
    target_address: ForeignAddress,
    user: Pubkey,
    slot: u64,
) -> Seq<Seq<u8>> {
    seq![
        TAG_TRANSFER@,
        seq![asset_chain],
        asset@,
        seq![target_chain],
        target_address@,
        user@,
        u64_le(slot),
    ]
}

/// One byte as a seed.
fn byte_seed(b: u8) -> (r: Vec<u8>)
    ensures
        r@ == seq![b],
{
    let mut r: Vec<u8> = Vec::new();
    r.push(b);
    assert(r@ =~= seq![b]);
    r
}

/// Builds the seeds of the bridge record.
pub fn make_bridge_seeds() -> (r: Vec<Vec<u8>>)
    ensures
        seeds_view(r@) == bridge_seeds(),
{
    let mut seeds: Vec<Vec<u8>> = Vec::new();
    seeds.push(to_vec(TAG_BRIDGE.as_slice()));
    assert(seeds_view(seeds@) =~= bridge_seeds());
    seeds
}

/// Builds the seeds of the custody account of a mint.
pub fn make_custody_seeds(bridge: &Pubkey, mint: &Pubkey) -> (r: Vec<Vec<u8>>)
    ensures
        seeds_view(r@) == custody_seeds(*bridge, *mint),
{
    let mut seeds: Vec<Vec<u8>> = Vec::new();
    seeds.push(to_vec(TAG_CUSTODY.as_slice()));
    seeds.push(to_vec(bridge.bytes.as_slice()));
    seeds.push(to_vec(mint.bytes.as_slice()));
    assert(seeds_view(seeds@) =~= custody_seeds(*bridge, *mint));
    seeds
}

/// Builds the seeds of the claim record of a message hash.
pub fn make_claim_seeds(bridge: &Pubkey, hash: &[u8; 32]) -> (r: Vec<Vec<u8>>)
    ensures
        seeds_view(r@) == claim_seeds(*bridge, *hash),
{
    let mut seeds: Vec<Vec<u8>> = Vec::new();
    seeds.push(to_vec(TAG_CLAIM.as_slice()));
    seeds.push(to_vec(bridge.bytes.as_slice()));
    seeds.push(to_vec(hash.as_slice()));
    assert(seeds_view(seeds@) =~= claim_seeds(*bridge, *hash));
    seeds
}

/// Builds the seeds of the guardian set with an index.
pub fn make_guardian_set_seeds(bridge: &Pubkey, index: u32) -> (r: Vec<Vec<u8>>)
    ensures
        seeds_view(r@) == guardian_set_seeds(*bridge, index),
{
    let mut seeds: Vec<Vec<u8>> = Vec::new();
    seeds.push(to_vec(bridge.bytes.as_slice()));
    let mut number: Vec<u8> = Vec::new();
    push_u32(&mut number, index);
    assert(number@ =~= u32_le(index));
    seeds.push(number);
    assert(seeds_view(seeds@) =~= guardian_set_seeds(*bridge, index));
    seeds
}

/// Builds the seeds of the wrapped form of a foreign asset.
pub fn make_wrapped_asset_seeds(bridge: &Pubkey, asset_chain: u8, asset: &ForeignAddress) -> (r:
    Vec<Vec<u8>>)
    ensures
        seeds_view(r@) == wrapped_asset_seeds(*bridge, asset_chain, *asset),
{
    let mut seeds: Vec<Vec<u8>> = Vec::new();
    seeds.push(to_vec(TAG_WRAPPED.as_slice()));
    seeds.push(to_vec(bridge.bytes.as_slice()));
    seeds.push(byte_seed(asset_chain));
    seeds.push(to_vec(asset.as_slice()));
    assert(seeds_view(seeds@) =~= wrapped_asset_seeds(*bridge, asset_chain, *asset));
    seeds
}

/// Builds the seeds of a transfer proposal.
pub fn make_transfer_seeds(
    asset_chain: u8,
    asset: &ForeignAddress,
    target_chain: u8,
    target_address: &ForeignAddress,
    user: &Pubkey,
    slot: u64,
) -> (r: Vec<Vec<u8>>)
    ensures
        seeds_view(r@) == transfer_seeds(
            asset_chain,
            *asset,
            target_chain,
            *target_address,
            *user,
            slot,
        ),
{
    let mut seeds: Vec<Vec<u8>> = Vec::new();
    seeds.push(to_vec(TAG_TRANSFER.as_slice()));
    seeds.push(byte_seed(asset_chain));
    seeds.push(to_vec(asset.as_slice()));
    seeds.push(byte_seed(target_chain));
    seeds.push(to_vec(target_address.as_slice()));
    seeds.push(to_vec(user.bytes.as_slice()));
    let mut number: Vec<u8> = Vec::new();
    push_u64(&mut number, slot);
    assert(number@ =~= u64_le(slot));
    seeds.push(number);
    assert(seeds_view(seeds@) =~= transfer_seeds(
        asset_chain,
        *asset,
        target_chain,
        *target_address,
        *user,
        slot,
    ));
    seeds
}

impl Bridge {
    /// Address of the bridge record of a program.
    pub fn derive_bridge_id(program_id: &Pubkey) -> (r: Result<Pubkey, Error>)
        ensures
            r == derive_spec(bridge_seeds(), *program_id),
    {
        derive_address(&make_bridge_seeds(), program_id)
    }

    /// Address of the custody account that holds a mint's locked tokens.
    pub fn derive_custody(program_id: &Pubkey, bridge: &Pubkey, mint: &Pubkey) -> (r: Result<
        Pubkey,
        Error,
    >)
        ensures
            r == derive_spec(custody_seeds(*bridge, *mint), *program_id),
    {
        derive_address(&make_custody_seeds(bridge, mint), program_id)
    }

    /// Address of the claim record of a message hash.
    pub fn derive_claim(program_id: &Pubkey, bridge: &Pubkey, hash: &[u8; 32]) -> (r: Result<
        Pubkey,
        Error,
    >)
        ensures
            r == derive_spec(claim_seeds(*bridge, *hash), *program_id),
    {
        derive_address(&make_claim_seeds(bridge, hash), program_id)
    }

    /// Address of the guardian set with an index.
    pub fn derive_guardian_set_id(
        program_id: &Pubkey,
        bridge_key: &Pubkey,
        guardian_set_index: u32,
    ) -> (r: Result<Pubkey, Error>)
        ensures
            r == derive_spec(guardian_set_seeds(*bridge_key, guardian_set_index), *program_id),
    {
        derive_address(&make_guardian_set_seeds(bridge_key, guardian_set_index), program_id)
    }

    /// Address of the mint of the wrapped form of a foreign asset.
    pub fn derive_wrapped_asset_id(
        program_id: &Pubkey,
        bridge_key: &Pubkey,
        asset_chain: u8,
        asset: ForeignAddress,
    ) -> (r: Result<Pubkey, Error>)
        ensures
            r == derive_spec(wrapped_asset_seeds(*bridge_key, asset_chain, asset), *program_id),
    {
        derive_address(&make_wrapped_asset_seeds(bridge_key, asset_chain, &asset), program_id)
    }

    /// Address of the proposal of a transfer.
    pub fn derive_transfer_id(
        program_id: &Pubkey,
        asset_chain: u8,
        asset: ForeignAddress,
        target_chain: u8,
        target_address: ForeignAddress,
        user: Pubkey,
        slot: u64,
    ) -> (r: Result<Pubkey, Error>)
        ensures
            r == derive_spec(
                transfer_seeds(asset_chain, asset, target_chain, target_address, user, slot),
                *program_id,
            ),
    {
        derive_address(
            &make_transfer_seeds(asset_chain, &asset, target_chain, &target_address, &user, slot),
            program_id,
        )
    }
}

/// The first `upto` seeds of a list, one after another.
pub open spec fn hashed_upto(seeds: Seq<Seq<u8>>, upto: int) -> Seq<u8>
    decreases upto,
{
    if upto <= 0 {
        Seq::empty()
    } else {
        hashed_upto(seeds, upto - 1) + seeds[upto - 1]
    }
}

/// The bytes that stand for a list of seeds when an address is derived: the
/// seeds one after another, with nothing between them.
pub open spec fn hashed_bytes(seeds: Seq<Seq<u8>>) -> Seq<u8> {
    hashed_upto(seeds, seeds.len() as int)
}

/// The same seeds under the same program derive the same address.
pub proof fn lemma_derivation_is_a_function(
    seeds: Seq<Seq<u8>>,
    program_id: Pubkey,
    again: Seq<Seq<u8>>,
    again_program_id: Pubkey,
)
    requires
        seeds == again,
        program_id == again_program_id,
    ensures
        derive_spec(seeds, program_id) == derive_spec(again, again_program_id),
{
}

/// The seeds of every kind of record stay within the derivation's limits of
/// 16 seeds of 32 bytes, and their bytes have a length of their own: 6 for
/// the bridge, 36 for a guardian set, 69 for a claim, 71 for a custody
/// account, 72 for a wrapped asset, 114 for a transfer. So records of two
/// kinds never stand for the same bytes.
pub proof fn lemma_seed_lengths(
    bridge: Pubkey,
    mint: Pubkey,
    hash: [u8; 32],
    index: u32,
    asset_chain: u8,
    asset: ForeignAddress,
    target_chain: u8,
    target_address: ForeignAddress,
    user: Pubkey,
    slot: u64,
)
    ensures
        hashed_bytes(bridge_seeds()).len() == 6,
        hashed_bytes(guardian_set_seeds(bridge, index)).len() == 36,
        hashed_bytes(claim_seeds(bridge, hash)).len() == 69,
        hashed_bytes(custody_seeds(bridge, mint)).len() == 71,
        hashed_bytes(wrapped_asset_seeds(bridge, asset_chain, asset)).len() == 72,
        hashed_bytes(
            transfer_seeds(asset_chain, asset, target_chain, target_address, user, slot),
        ).len() == 114,
        within_limits(bridge_seeds()),
        within_limits(guardian_set_seeds(bridge, index)),
        within_limits(claim_seeds(bridge, hash)),
        within_limits(custody_seeds(bridge, mint)),
        within_limits(wrapped_asset_seeds(bridge, asset_chain, asset)),
        within_limits(
            transfer_seeds(asset_chain, asset, target_chain, target_address, user, slot),
        ),
{
    reveal_with_fuel(hashed_upto, 9);
    lemma_u32_at(Seq::empty(), index, Seq::empty());
    lemma_u64_at(Seq::empty(), slot, Seq::empty());
}

/// Whether a list of seeds is within the derivation's limits.
pub open spec fn within_limits(seeds: Seq<Seq<u8>>) -> bool {
    &&& seeds.len() <= 16
    &&& forall|i: int| 0 <= i < seeds.len() ==> (#[trigger] seeds[i]).len() <= 32
}

/// Two guardian sets stand for the same bytes only where they belong to the
/// same bridge and have the same index.
pub proof fn lemma_guardian_set_seeds_injective(
    bridge: Pubkey,
    index: u32,
    other_bridge: Pubkey,
    other_index: u32,
)
    requires
        hashed_bytes(guardian_set_seeds(bridge, index)) == hashed_bytes(
            guardian_set_seeds(other_bridge, other_index),
        ),
    ensures
        bridge == other_bridge,
        index == other_index,
{
    reveal_with_fuel(hashed_upto, 3);
    lemma_u32_at(Seq::empty(), index, Seq::empty());
    lemma_u32_at(Seq::empty(), other_index, Seq::empty());
    let a = hashed_bytes(guardian_set_seeds(bridge, index));
    let b = hashed_bytes(guardian_set_seeds(other_bridge, other_index));
    assert(a.subrange(0, 32) =~= bridge@);
    assert(b.subrange(0, 32) =~= other_bridge@);
    assert(a.subrange(32, 36) =~= u32_le(index));
    assert(b.subrange(32, 36) =~= u32_le(other_index));
    lemma_u32_le_injective(index, other_index);
    assert(bridge.bytes =~= other_bridge.bytes);
}

/// Two claim records stand for the same bytes only where they belong to the
/// same bridge and the same message hash.
pub proof fn lemma_claim_seeds_injective(
    bridge: Pubkey,
    hash: [u8; 32],
    other_bridge: Pubkey,
    other_hash: [u8; 32],
)
    requires
        hashed_bytes(claim_seeds(bridge, hash)) == hashed_bytes(
            claim_seeds(other_bridge, other_hash),
        ),
    ensures
        bridge == other_bridge,
        hash == other_hash,
{
    reveal_with_fuel(hashed_upto, 4);
    let a = hashed_bytes(claim_seeds(bridge, hash));
    let b = hashed_bytes(claim_seeds(other_bridge, other_hash));
    assert(a.subrange(5, 37) =~= bridge@);
    assert(b.subrange(5, 37) =~= other_bridge@);
    assert(a.subrange(37, 69) =~= hash@);
    assert(b.subrange(37, 69) =~= other_hash@);
    assert(bridge.bytes =~= other_bridge.bytes);
    assert(hash =~= other_hash);
}

/// Two custody accounts stand for the same bytes only where they belong to
/// the same bridge and the same mint.
pub proof fn lemma_custody_seeds_injective(
    bridge: Pubkey,
    mint: Pubkey,
    other_bridge: Pubkey,
    other_mint: Pubkey,
)
    requires
        hashed_bytes(custody_seeds(bridge, mint)) == hashed_bytes(
            custody_seeds(other_bridge, other_mint),
        ),
    ensures
        bridge == other_bridge,
        mint == other_mint,
{
    reveal_with_fuel(hashed_upto, 4);
    let a = hashed_bytes(custody_seeds(bridge, mint));
    let b = hashed_bytes(custody_seeds(other_bridge, other_mint));
    assert(a.subrange(7, 39) =~= bridge@);
    assert(b.subrange(7, 39) =~= other_bridge@);
    assert(a.subrange(39, 71) =~= mint@);
    assert(b.subrange(39, 71) =~= other_mint@);
    assert(bridge.bytes =~= other_bridge.bytes);
    assert(mint.bytes =~= other_mint.bytes);
}

/// Two wrapped assets stand for the same bytes only where they belong to the
/// same bridge and wrap the same asset of the same chain.
pub proof fn lemma_wrapped_asset_seeds_injective(
    bridge: Pubkey,
    asset_chain: u8,
    asset: ForeignAddress,
    other_bridge: Pubkey,
    other_asset_chain: u8,
    other_asset: ForeignAddress,
)
    requires
        hashed_bytes(wrapped_asset_seeds(bridge, asset_chain, asset)) == hashed_bytes(
            wrapped_asset_seeds(other_bridge, other_asset_chain, other_asset),
        ),
    ensures
        bridge == other_bridge,
        asset_chain == other_asset_chain,
        asset == other_asset,
{
    reveal_with_fuel(hashed_upto, 5);
    let a = hashed_bytes(wrapped_asset_seeds(bridge, asset_chain, asset));
    let b = hashed_bytes(wrapped_asset_seeds(other_bridge, other_asset_chain, other_asset));
    assert(a.subrange(7, 39) =~= bridge@);
    assert(b.subrange(7, 39) =~= other_bridge@);
    assert(a[39] == asset_chain);
    assert(b[39] == other_asset_chain);
    assert(a.subrange(40, 72) =~= asset@);
    assert(b.subrange(40, 72) =~= other_asset@);
    assert(bridge.bytes =~= other_bridge.bytes);
    assert(asset =~= other_asset);
}

/// The components of a transfer proposal's address.
pub struct TransferIdentity {
    pub asset_chain: u8,
    pub asset: ForeignAddress,
    pub target_chain: u8,
    pub target_address: ForeignAddress,
    pub user: Pubkey,
    pub slot: u64,
}

/// The seeds of a transfer proposal with these components.
pub open spec fn transfer_identity_seeds(id: TransferIdentity) -> Seq<Seq<u8>> {
    transfer_seeds(
        id.asset_chain,
        id.asset,
        id.target_chain,
        id.target_address,
        id.user,
        id.slot,
    )
}

/// Two transfer proposals stand for the same bytes only where every
/// component is the same: asset, destination, sender and slot.
pub proof fn lemma_transfer_seeds_injective(id: TransferIdentity, other: TransferIdentity)
    requires
        hashed_bytes(transfer_identity_seeds(id)) == hashed_bytes(transfer_identity_seeds(other)),
    ensures
        id == other,
{
    reveal_with_fuel(hashed_upto, 8);
    lemma_u64_at(Seq::empty(), id.slot, Seq::empty());
    lemma_u64_at(Seq::empty(), other.slot, Seq::empty());
    let a = hashed_bytes(transfer_identity_seeds(id));
    let b = hashed_bytes(transfer_identity_seeds(other));
    assert(a[8] == id.asset_chain);
    assert(b[8] == other.asset_chain);
    assert(a.subrange(9, 41) =~= id.asset@);
    assert(b.subrange(9, 41) =~= other.asset@);
    assert(a[41] == id.target_chain);
    assert(b[41] == other.target_chain);
    assert(a.subrange(42, 74) =~= id.target_address@);
    assert(b.subrange(42, 74) =~= other.target_address@);
    assert(a.subrange(74, 106) =~= id.user@);
    assert(b.subrange(74, 106) =~= other.user@);
    assert(a.subrange(106, 114) =~= u64_le(id.slot));
    assert(b.subrange(106, 114) =~= u64_le(other.slot));
    lemma_u64_le_injective(id.slot, other.slot);
    assert(id.user.bytes =~= other.user.bytes);
    assert(id.asset =~= other.asset);
    assert(id.target_address =~= other.target_address);
}

} // verus!
