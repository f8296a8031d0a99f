//! Seed mixing: deterministic pseudorandom digests from mixed entropy
//! sources.
//!
//! A server seed is derived from the acting player, the current block height
//! and timestamp, and the account the bet runs against; a combined seed mixes
//! the server seed with client-supplied entropy. Both derivations are pure
//! functions of publicly recorded inputs, so any third party can replay them
//! after the fact and confirm an outcome.

use vstd::prelude::*;
use vstd::bytes::{spec_u64_to_le_bytes, u64_to_le_bytes};

verus! {

/// The SHA-256 digest of a byte string, as computed by the hashing routine
/// the engine relies on. A function of the input bytes alone.
pub uninterp spec fn sha256_of(data: Seq<u8>) -> Seq<u8>;

/// Relies on solana_sha256_hasher::hash: the SHA-256 digest of the input
/// bytes, 32 bytes long and a function of those bytes alone.
#[verifier::external_body]
fn sha256(data: &Vec<u8>) -> (r: [u8; 32])
    ensures
        r@ == sha256_of(data@),
{
    solana_sha256_hasher::hash(data.as_slice()).to_bytes()
}

/// The little-endian bytes of a signed timestamp: its two's-complement
/// 64-bit pattern.
pub open spec fn spec_i64_to_le_bytes(x: i64) -> Seq<u8> {
    spec_u64_to_le_bytes(x as u64)
}

/// The byte string hashed for a server seed: player identity, block height,
/// timestamp, then the account the bet runs against.
pub open spec fn server_seed_input(
    player: Seq<u8>,
    slot: u64,
    timestamp: i64,
    house: Seq<u8>,
) -> Seq<u8> {
    player + spec_u64_to_le_bytes(slot) + spec_i64_to_le_bytes(timestamp) + house
}

/// The server seed: the digest of the server seed input.
pub open spec fn server_seed_of(
    player: Seq<u8>,
    slot: u64,
    timestamp: i64,
    house: Seq<u8>,
) -> Seq<u8> {
    sha256_of(server_seed_input(player, slot, timestamp, house))
}

/// The combined seed: the digest of server seed, client seed, then player
/// identity.
pub open spec fn combined_seed_of(server: Seq<u8>, client: Seq<u8>, player: Seq<u8>) -> Seq<u8> {
    sha256_of(server + client + player)
}

/// Derive the server seed for a bet from its publicly recorded inputs.
pub fn generate_seed(player: &[u8; 32], slot: u64, timestamp: i64, house: &[u8; 32]) -> (r: [u8;
    32])
    ensures
        r@ == server_seed_of(player@, slot, timestamp, house@),
{
    let mut data: Vec<u8> = Vec::new();
    data.extend_from_slice(player.as_slice());
    let mut slot_bytes = u64_to_le_bytes(slot);
    data.append(&mut slot_bytes);
    #[verifier::truncate]
    let mut timestamp_bytes = u64_to_le_bytes(timestamp as u64);
    data.append(&mut timestamp_bytes);
    data.extend_from_slice(house.as_slice());
    proof {
        assert(data@ =~= server_seed_input(player@, slot, timestamp, house@));
    }
    sha256(&data)
}

/// Mix a server seed with client-supplied entropy and the player identity.
pub fn combine_seeds(server: &[u8; 32], client: &[u8; 32], player: &[u8; 32]) -> (r: [u8; 32])
    ensures
        r@ == combined_seed_of(server@, client@, player@),
{
    let mut data: Vec<u8> = Vec::new();
    data.extend_from_slice(server.as_slice());
    data.extend_from_slice(client.as_slice());
    data.extend_from_slice(player.as_slice());
    proof {
        assert(data@ =~= server@ + client@ + player@);
    }
    sha256(&data)
}

/// Compare two 32-byte identities or seeds for equality.
pub fn keys_equal(a: &[u8; 32], b: &[u8; 32]) -> (r: bool)
    ensures
        r == (a@ == b@),
{
    let mut i: usize = 0;
    while i < 32
        invariant
            0 <= i <= 32,
            forall|j: int| 0 <= j < i ==> a@[j] == b@[j],
        decreases 32 - i,
    {
        if a[i] != b[i] {
            return false;
        }
        i = i + 1;
    }
    proof {
        assert(a@ =~= b@);
    }
    true
}

/// Seed mixing is pure: two derivations from equal inputs always yield equal
/// seeds.
pub proof fn lemma_seed_mixer_deterministic(
    player1: Seq<u8>,
    player2: Seq<u8>,
    slot1: u64,
    slot2: u64,
    timestamp1: i64,
    timestamp2: i64,
    house1: Seq<u8>,
    house2: Seq<u8>,
)
    requires
        player1 == player2,
        slot1 == slot2,
        timestamp1 == timestamp2,
        house1 == house2,
    ensures
        server_seed_of(player1, slot1, timestamp1, house1) == server_seed_of(
            player2,
            slot2,
            timestamp2,
            house2,
        ),
{
}

} // verus!
