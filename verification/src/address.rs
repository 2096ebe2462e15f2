//! Deriving the addresses at which a caller's asset and holding account live.

use vstd::prelude::*;
use crate::identity::Identity;

verus! {

/// The address that the ledger derives for `program_id` from `seeds`, with
/// the bump seed it found, or `None` where it finds none.
pub uninterp spec fn program_address(seeds: Seq<Seq<u8>>, program_id: Seq<u8>) -> Option<(Seq<u8>, u8)>;

/// The byte sequences that a list of seeds holds.
pub open spec fn seed_views(seeds: Seq<Vec<u8>>) -> Seq<Seq<u8>> {
    Seq::new(seeds.len(), |i: int| seeds[i]@)
}

/// A derived address and bump seed, the address as its bytes.
pub open spec fn address_view(found: Option<(Identity, u8)>) -> Option<(Seq<u8>, u8)> {
    match found {
        Some((address, bump)) => Some((address@, bump)),
        None => None,
    }
}

/// Calls `Pubkey::try_find_program_address` of `anchor_lang`, which hashes
/// the seeds, a bump seed and the program's identity until the hash is no
/// point of the curve. The contract claims only that the outcome is a
/// function of the seeds' bytes and the program's bytes.
#[verifier::external_body]
fn try_find_program_address(
    seeds: &Vec<Vec<u8>>,
    program_id: &Identity,
) -> (found: Option<(Identity, u8)>)
    ensures
        address_view(found) == program_address(seed_views(seeds@), program_id@),
{
    let parts: Vec<&[u8]> = seeds.iter().map(|seed| seed.as_slice()).collect();
    let program = anchor_lang::prelude::Pubkey::new_from_array(program_id.bytes);
    match anchor_lang::prelude::Pubkey::try_find_program_address(&parts, &program) {
        Some((address, bump)) => Some((Identity { bytes: address.to_bytes() }, bump)),
        None => None,
    }
}

/// The bytes of the program that this service is deployed as.
pub open spec fn program_bytes() -> Seq<u8> {
    seq![
        190u8, 196, 115, 11, 155, 217, 62, 131, 10, 133, 32, 166, 122, 172, 141, 206,
        69, 241, 148, 226, 94, 167, 154, 135, 218, 130, 153, 165, 77, 253, 172, 152,
    ]
}

/// The bytes of the token program.
pub open spec fn token_program_bytes() -> Seq<u8> {
    seq![
        6u8, 221, 246, 225, 215, 101, 161, 147, 217, 203, 225, 70, 206, 235, 121, 172,
        28, 180, 133, 237, 95, 91, 55, 145, 58, 140, 245, 133, 126, 255, 0, 169,
    ]
}

/// The bytes of the associated token account program.
pub open spec fn associated_token_program_bytes() -> Seq<u8> {
    seq![
        140u8, 151, 37, 143, 78, 36, 137, 241, 187, 61, 16, 41, 20, 142, 13, 131,
        11, 90, 19, 153, 218, 255, 16, 132, 4, 142, 123, 216, 219, 233, 248, 89,
    ]
}

/// The bytes of the seed that marks an asset's address: the text `mint`.
pub open spec fn mint_seed_bytes() -> Seq<u8> {
    seq![109u8, 105, 110, 116]
}

/// The bytes of the seed that marks a user record's address: the text
/// `user`.
pub open spec fn user_seed_bytes() -> Seq<u8> {
    seq![117u8, 115, 101, 114]
}

/// The seeds of the record that belongs to `user`.
pub open spec fn user_seeds(user: Seq<u8>) -> Seq<Seq<u8>> {
    seq![user_seed_bytes(), user]
}

/// The seeds of the asset that belongs to `payer`.
pub open spec fn mint_seeds(payer: Seq<u8>) -> Seq<Seq<u8>> {
    seq![mint_seed_bytes(), payer]
}

/// The seeds of the holding account that `owner` has for `asset`.
pub open spec fn holding_seeds(owner: Seq<u8>, asset: Seq<u8>) -> Seq<Seq<u8>> {
    seq![owner, token_program_bytes(), asset]
}

/// The address of the record that belongs to `user` under `program_id`.
pub open spec fn user_address(user: Seq<u8>, program_id: Seq<u8>) -> Option<(Seq<u8>, u8)> {
    program_address(user_seeds(user), program_id)
}

/// The address of the asset that belongs to `payer` under `program_id`.
pub open spec fn mint_address(payer: Seq<u8>, program_id: Seq<u8>) -> Option<(Seq<u8>, u8)> {
    program_address(mint_seeds(payer), program_id)
}

/// The address of the holding account that `owner` has for `asset`.
pub open spec fn holding_address(owner: Seq<u8>, asset: Seq<u8>) -> Option<(Seq<u8>, u8)> {
    program_address(holding_seeds(owner, asset), associated_token_program_bytes())
}

/// The identity of the program that this service is deployed as.
pub fn id() -> (program: Identity)
    ensures
        program@ == program_bytes(),
{
    let program = Identity {
        bytes: [
            190, 196, 115, 11, 155, 217, 62, 131, 10, 133, 32, 166, 122, 172, 141, 206,
            69, 241, 148, 226, 94, 167, 154, 135, 218, 130, 153, 165, 77, 253, 172, 152,
        ],
    };
    assert(program@ =~= program_bytes());
    program
}

/// Whether `program` is the program that this service is deployed as.
pub fn check_id(program: &Identity) -> (same: bool)
    ensures
        same == (program@ == program_bytes()),
{
    *program == id()
}

/// The identity of the token program.
pub fn token_program() -> (program: Identity)
    ensures
        program@ == token_program_bytes(),
{
    let program = Identity {
        bytes: [
            6, 221, 246, 225, 215, 101, 161, 147, 217, 203, 225, 70, 206, 235, 121, 172,
            28, 180, 133, 237, 95, 91, 55, 145, 58, 140, 245, 133, 126, 255, 0, 169,
        ],
    };
    assert(program@ =~= token_program_bytes());
    program
}

/// The identity of the associated token account program.
pub fn associated_token_program() -> (program: Identity)
    ensures
        program@ == associated_token_program_bytes(),
{
    let program = Identity {
        bytes: [
            140, 151, 37, 143, 78, 36, 137, 241, 187, 61, 16, 41, 20, 142, 13, 131,
            11, 90, 19, 153, 218, 255, 16, 132, 4, 142, 123, 216, 219, 233, 248, 89,
        ],
    };
    assert(program@ =~= associated_token_program_bytes());
    program
}

/// The bytes of an identity, as a seed.
fn seed_of(identity: &Identity) -> (seed: Vec<u8>)
    ensures
        seed@ == identity@,
{
    let mut seed: Vec<u8> = Vec::new();
    let mut i: usize = 0;
    while i < 32
        invariant
            i <= 32,
            seed@.len() == i,
            forall|j: int| 0 <= j < i ==> seed@[j] == identity.bytes@[j],
        decreases 32 - i,
    {
        seed.push(identity.bytes[i]);
        i = i + 1;
    }
    assert(seed@ =~= identity@);
    seed
}

/// Derives the address of the record that belongs to `user` under
/// `program_id`, with its bump seed.
pub fn find_user_address(
    user: &Identity,
    program_id: &Identity,
) -> (found: Option<(Identity, u8)>)
    ensures
        address_view(found) == user_address(user@, program_id@),
{
    let mut tag: Vec<u8> = Vec::new();
    tag.push(117);
    tag.push(115);
    tag.push(101);
    tag.push(114);
    assert(tag@ =~= user_seed_bytes());
    let mut seeds: Vec<Vec<u8>> = Vec::new();
    seeds.push(tag);
    seeds.push(seed_of(user));
    assert(seed_views(seeds@) =~= user_seeds(user@));
    try_find_program_address(&seeds, program_id)
}

/// Derives the address of the asset that belongs to `payer` under
/// `program_id`, with its bump seed.
pub fn find_mint_address(
    payer: &Identity,
    program_id: &Identity,
) -> (found: Option<(Identity, u8)>)
    ensures
        address_view(found) == mint_address(payer@, program_id@),
{
    let mut tag: Vec<u8> = Vec::new();
    tag.push(109);
    tag.push(105);
    tag.push(110);
    tag.push(116);
    assert(tag@ =~= mint_seed_bytes());
    let mut seeds: Vec<Vec<u8>> = Vec::new();
    seeds.push(tag);
    seeds.push(seed_of(payer));
    assert(seed_views(seeds@) =~= mint_seeds(payer@));
    try_find_program_address(&seeds, program_id)
}

/// Derives the address of the holding account that `owner` has for `asset`,
/// with its bump seed.
pub fn find_holding_address(
    owner: &Identity,
    asset: &Identity,
) -> (found: Option<(Identity, u8)>)
    ensures
        address_view(found) == holding_address(owner@, asset@),
{
    let token = token_program();
    let mut seeds: Vec<Vec<u8>> = Vec::new();
    seeds.push(seed_of(owner));
    seeds.push(seed_of(&token));
    seeds.push(seed_of(asset));
    assert(seed_views(seeds@) =~= holding_seeds(owner@, asset@));
    try_find_program_address(&seeds, &associated_token_program())
}

/// Whether `supplied` is the address that a derivation found.
pub fn is_derived(found: &Option<(Identity, u8)>, supplied: &Identity) -> (same: bool)
    ensures
        same == derived_is(address_view(*found), supplied@),
{
    match found {
        Some((address, _)) => *address == *supplied,
        None => false,
    }
}

/// Whether a derivation found the address `supplied`.
pub open spec fn derived_is(found: Option<(Seq<u8>, u8)>, supplied: Seq<u8>) -> bool {
    found matches Some((address, _)) && address == supplied
}

} // verus!
