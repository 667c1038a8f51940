//! Ledger addresses, and how the address of each record is derived.
//!
//! A record is found under an address that is derived from a tuple of
//! seeds: a word for the kind of the record, then what identifies the
//! record among those of its kind.

use vstd::prelude::*;
use vstd::bytes::{spec_u64_to_le_bytes, u64_to_le_bytes};
use anchor_lang::prelude::Pubkey;

verus! {

/// Number of bytes in an address.
pub const ADDRESS_BYTES: usize = 32;

/// The seed word of publisher records: `publisher`.
pub const PUBLISHER_SEED: [u8; 9] = [112, 117, 98, 108, 105, 115, 104, 101, 114];

/// The seed word of campaign records: `campaign`.
pub const CAMPAIGN_SEED: [u8; 8] = [99, 97, 109, 112, 97, 105, 103, 110];

/// The seed word of node records: `node_account`.
pub const NODE_ACCOUNT_SEED: [u8; 12] = [110, 111, 100, 101, 95, 97, 99, 99, 111, 117, 110, 116];

/// The seed word of play records: `play_record`.
pub const PLAY_RECORD_SEED: [u8; 11] = [112, 108, 97, 121, 95, 114, 101, 99, 111, 114, 100];

/// The seed word of cooldown records: `cooldown`.
pub const COOLDOWN_SEED: [u8; 8] = [99, 111, 111, 108, 100, 111, 119, 110];

/// The address of an entry of the host ledger.
#[derive(Clone, Copy, Debug, Eq)]
pub struct Address {
    pub bytes: [u8; 32],
}

impl View for Address {
    type V = Seq<u8>;

    open spec fn view(&self) -> Seq<u8> {
        self.bytes@
    }
}

impl PartialEq for Address {
    fn eq(&self, other: &Address) -> (r: bool) {
        let mut i: usize = 0;
        while i < 32
            invariant
                i <= 32,
                forall|j: int| 0 <= j < i ==> self.bytes[j] == other.bytes[j],
            decreases 32 - i,
        {
            if self.bytes[i] != other.bytes[i] {
                return false;
            }
            i += 1;
        }
        assert(self.bytes@ =~= other.bytes@);
        assert(self.bytes == other.bytes);
        true
    }
}

impl vstd::std_specs::cmp::PartialEqSpecImpl for Address {
    open spec fn obeys_eq_spec() -> bool {
        true
    }

    open spec fn eq_spec(&self, other: &Address) -> bool {
        *self == *other
    }
}

/// Two addresses are the same exactly when their bytes agree.
pub proof fn lemma_address_view_injective(a: Address, b: Address)
    ensures
        (a@ == b@) <==> (a == b),
        a@.len() == 32,
{
    if a@ == b@ {
        assert(a.bytes@ =~= b.bytes@);
        assert(a.bytes == b.bytes);
    }
}

/// The bytes of each seed of a tuple.
pub open spec fn seeds_view(seeds: Seq<Vec<u8>>) -> Seq<Seq<u8>> {
    Seq::new(seeds.len(), |i: int| seeds[i]@)
}

/// The little-endian bytes of a claim nonce, in two's complement.
pub open spec fn nonce_bytes(claim_nonce: i64) -> Seq<u8> {
    spec_u64_to_le_bytes(claim_nonce as u64)
}

/// The seeds of the publisher that `authority` controls.
pub open spec fn publisher_seed_tuple(authority: Address) -> Seq<Seq<u8>> {
    seq![PUBLISHER_SEED@, authority@]
}

/// The seeds of the campaign that `publisher` numbered `campaign_id`.
pub open spec fn campaign_seed_tuple(publisher: Address, campaign_id: u64) -> Seq<Seq<u8>> {
    seq![CAMPAIGN_SEED@, publisher@, spec_u64_to_le_bytes(campaign_id)]
}

/// The seeds of the node that `authority` numbered `node_id`.
pub open spec fn node_seed_tuple(authority: Address, node_id: u64) -> Seq<Seq<u8>> {
    seq![NODE_ACCOUNT_SEED@, authority@, spec_u64_to_le_bytes(node_id)]
}

/// The seeds of the play record of a campaign, a node and a nonce that the
/// claimant chose.
pub open spec fn play_record_seed_tuple(campaign: Address, node: Address, claim_nonce: i64) -> Seq<
    Seq<u8>,
> {
    seq![PLAY_RECORD_SEED@, campaign@, node@, nonce_bytes(claim_nonce)]
}

/// The seeds of the cooldown record of a campaign and a node.
pub open spec fn cooldown_seed_tuple(campaign: Address, node: Address) -> Seq<Seq<u8>> {
    seq![COOLDOWN_SEED@, campaign@, node@]
}

/// The seeds of two play records agree only where the campaign, the node
/// and the nonce agree: claims of one node at different nonces have
/// different seeds.
pub proof fn lemma_play_record_seeds_injective(
    campaign: Address,
    node: Address,
    claim_nonce: i64,
    other_campaign: Address,
    other_node: Address,
    other_nonce: i64,
)
    ensures
        play_record_seed_tuple(campaign, node, claim_nonce) == play_record_seed_tuple(
            other_campaign,
            other_node,
            other_nonce,
        ) <==> campaign == other_campaign && node == other_node && claim_nonce == other_nonce,
{
    let first = play_record_seed_tuple(campaign, node, claim_nonce);
    let second = play_record_seed_tuple(other_campaign, other_node, other_nonce);
    if first == second {
        assert(first[1] == second[1]);
        assert(first[2] == second[2]);
        assert(first[3] == second[3]);
        lemma_address_view_injective(campaign, other_campaign);
        lemma_address_view_injective(node, other_node);
        lemma_nonce_bytes_injective(claim_nonce, other_nonce);
    }
}

/// The seeds of two cooldown records agree only where the campaign and the
/// node agree: the cooldown of a node is kept for each campaign apart.
pub proof fn lemma_cooldown_seeds_injective(
    campaign: Address,
    node: Address,
    other_campaign: Address,
    other_node: Address,
)
    ensures
        cooldown_seed_tuple(campaign, node) == cooldown_seed_tuple(other_campaign, other_node)
            <==> campaign == other_campaign && node == other_node,
{
    let first = cooldown_seed_tuple(campaign, node);
    let second = cooldown_seed_tuple(other_campaign, other_node);
    if first == second {
        assert(first[1] == second[1]);
        assert(first[2] == second[2]);
        lemma_address_view_injective(campaign, other_campaign);
        lemma_address_view_injective(node, other_node);
    }
}

/// Different nonces have different bytes.
pub proof fn lemma_nonce_bytes_injective(claim_nonce: i64, other_nonce: i64)
    ensures
        nonce_bytes(claim_nonce) == nonce_bytes(other_nonce) <==> claim_nonce == other_nonce,
{
    vstd::bytes::lemma_auto_spec_u64_to_from_le_bytes();
    let a = claim_nonce as u64;
    let b = other_nonce as u64;
    if nonce_bytes(claim_nonce) == nonce_bytes(other_nonce) {
        assert(vstd::bytes::spec_u64_from_le_bytes(spec_u64_to_le_bytes(a)) == a);
        assert(vstd::bytes::spec_u64_from_le_bytes(spec_u64_to_le_bytes(b)) == b);
        assert(a == b);
        assert(claim_nonce == other_nonce) by (bit_vector)
            requires
                claim_nonce as u64 == other_nonce as u64,
        ;
    }
}

/// A copy of the bytes of `address`.
pub fn address_bytes(address: &Address) -> (bytes: Vec<u8>)
    ensures
        bytes@ == address@,
{
    let mut bytes: Vec<u8> = Vec::new();
    let mut i: usize = 0;
    while i < 32
        invariant
            i <= 32,
            bytes@ == address.bytes@.subrange(0, i as int),
        decreases 32 - i,
    {
        bytes.push(address.bytes[i]);
        assert(bytes@ =~= address.bytes@.subrange(0, i + 1));
        i += 1;
    }
    assert(bytes@ =~= address.bytes@);
    bytes
}

/// A copy of the bytes of a seed word.
pub fn seed_word<const N: usize>(word: &[u8; N]) -> (bytes: Vec<u8>)
    ensures
        bytes@ == word@,
{
    let mut bytes: Vec<u8> = Vec::new();
    let mut i: usize = 0;
    while i < N
        invariant
            i <= N,
            word@.len() == N,
            bytes@ == word@.subrange(0, i as int),
        decreases N - i,
    {
        bytes.push(word[i]);
        assert(bytes@ =~= word@.subrange(0, i + 1));
        i += 1;
    }
    assert(bytes@ =~= word@);
    bytes
}

/// Builds the seeds of a publisher record.
pub fn publisher_seeds(authority: &Address) -> (seeds: Vec<Vec<u8>>)
    ensures
        seeds_view(seeds@) == publisher_seed_tuple(*authority),
{
    let mut seeds: Vec<Vec<u8>> = Vec::new();
    seeds.push(seed_word(&PUBLISHER_SEED));
    seeds.push(address_bytes(authority));
    assert(seeds_view(seeds@) =~= publisher_seed_tuple(*authority));
    seeds
}

/// Builds the seeds of a campaign record.
pub fn campaign_seeds(publisher: &Address, campaign_id: u64) -> (seeds: Vec<Vec<u8>>)
    ensures
        seeds_view(seeds@) == campaign_seed_tuple(*publisher, campaign_id),
{
    let mut seeds: Vec<Vec<u8>> = Vec::new();
    seeds.push(seed_word(&CAMPAIGN_SEED));
    seeds.push(address_bytes(publisher));
    seeds.push(u64_to_le_bytes(campaign_id));
    assert(seeds_view(seeds@) =~= campaign_seed_tuple(*publisher, campaign_id));
    seeds
}

/// Builds the seeds of a node record.
pub fn node_seeds(authority: &Address, node_id: u64) -> (seeds: Vec<Vec<u8>>)
    ensures
        seeds_view(seeds@) == node_seed_tuple(*authority, node_id),
{
    let mut seeds: Vec<Vec<u8>> = Vec::new();
    seeds.push(seed_word(&NODE_ACCOUNT_SEED));
    seeds.push(address_bytes(authority));
    seeds.push(u64_to_le_bytes(node_id));
    assert(seeds_view(seeds@) =~= node_seed_tuple(*authority, node_id));
    seeds
}

/// Builds the seeds of a play record.
pub fn play_record_seeds(campaign: &Address, node: &Address, claim_nonce: i64) -> (seeds: Vec<
    Vec<u8>,
>)
    ensures
        seeds_view(seeds@) == play_record_seed_tuple(*campaign, *node, claim_nonce),
{
    let mut seeds: Vec<Vec<u8>> = Vec::new();
    seeds.push(seed_word(&PLAY_RECORD_SEED));
    seeds.push(address_bytes(campaign));
    seeds.push(address_bytes(node));
    seeds.push(u64_to_le_bytes(claim_nonce as u64));
    assert(seeds_view(seeds@) =~= play_record_seed_tuple(*campaign, *node, claim_nonce));
    seeds
}

/// Builds the seeds of a cooldown record.
pub fn cooldown_seeds(campaign: &Address, node: &Address) -> (seeds: Vec<Vec<u8>>)
    ensures
        seeds_view(seeds@) == cooldown_seed_tuple(*campaign, *node),
{
    let mut seeds: Vec<Vec<u8>> = Vec::new();
    seeds.push(seed_word(&COOLDOWN_SEED));
    seeds.push(address_bytes(campaign));
    seeds.push(address_bytes(node));
    assert(seeds_view(seeds@) =~= cooldown_seed_tuple(*campaign, *node));
    seeds
}

/// The address and the bump seed that the host ledger derives for a
/// program from a tuple of seeds, where it finds one.
pub uninterp spec fn program_address(seeds: Seq<Seq<u8>>, program_id: Seq<u8>) -> Option<
    (Seq<u8>, u8),
>;

/// A derived address and its bump seed as mathematical values.
pub open spec fn derived_view(derived: Option<(Address, u8)>) -> Option<(Seq<u8>, u8)> {
    match derived {
        Some((address, bump)) => Some((address@, bump)),
        None => None,
    }
}

/// Calls `Pubkey::try_find_program_address`. The derivation hashes the
/// seeds, a bump seed and the program's address, and searches the bump
/// seeds from the highest down; nothing of that is stated here. What is
/// taken on trust is that the outcome depends on the seeds and on the
/// program's address alone.
#[verifier::external_body]
fn try_find_program_address(seeds: &Vec<Vec<u8>>, program_id: &Address) -> (derived: Option<
    (Address, u8),
>)
    ensures
        derived_view(derived) == program_address(seeds_view(seeds@), program_id@),
{
    let parts: Vec<&[u8]> = seeds.iter().map(|seed| seed.as_slice()).collect();
    let program = Pubkey::new_from_array(program_id.bytes);
    match Pubkey::try_find_program_address(&parts, &program) {
        Some((key, bump)) => Some((Address { bytes: key.to_bytes() }, bump)),
        None => None,
    }
}

/// Derives the address of the publisher that `authority` controls.
pub fn find_publisher_address(authority: &Address, program_id: &Address) -> (derived: Option<
    (Address, u8),
>)
    ensures
        derived_view(derived) == program_address(publisher_seed_tuple(*authority), program_id@),
{
    try_find_program_address(&publisher_seeds(authority), program_id)
}

/// Derives the address of the campaign that `publisher` numbered `campaign_id`.
pub fn find_campaign_address(publisher: &Address, campaign_id: u64, program_id: &Address) -> (derived:
    Option<(Address, u8)>)
    ensures
        derived_view(derived) == program_address(
            campaign_seed_tuple(*publisher, campaign_id),
            program_id@,
        ),
{
    try_find_program_address(&campaign_seeds(publisher, campaign_id), program_id)
}

/// Derives the address of the node that `authority` numbered `node_id`.
pub fn find_node_address(authority: &Address, node_id: u64, program_id: &Address) -> (derived:
    Option<(Address, u8)>)
    ensures
        derived_view(derived) == program_address(node_seed_tuple(*authority, node_id), program_id@),
{
    try_find_program_address(&node_seeds(authority, node_id), program_id)
}

/// Derives the address of the play record of a campaign, a node and a nonce.
pub fn find_play_record_address(
    campaign: &Address,
    node: &Address,
    claim_nonce: i64,
    program_id: &Address,
) -> (derived: Option<(Address, u8)>)
    ensures
        derived_view(derived) == program_address(
            play_record_seed_tuple(*campaign, *node, claim_nonce),
            program_id@,
        ),
{
    try_find_program_address(&play_record_seeds(campaign, node, claim_nonce), program_id)
}

/// Derives the address of the cooldown record of a campaign and a node.
pub fn find_cooldown_address(campaign: &Address, node: &Address, program_id: &Address) -> (derived:
    Option<(Address, u8)>)
    ensures
        derived_view(derived) == program_address(
            cooldown_seed_tuple(*campaign, *node),
            program_id@,
        ),
{
    try_find_program_address(&cooldown_seeds(campaign, node), program_id)
}

} // verus!
