//! Deriving the reels from public entropy.
//!
//! The digest is SHA-256 over the player's key, a recent chain digest and the
//! game's spin counter. Nothing in it is secret: anyone who knows those three
//! values in advance knows the draw. It keeps the draw reproducible and
//! auditable, not unpredictable.

use vstd::prelude::*;

verus! {

/// The SHA-256 digest of a byte string.
pub uninterp spec fn sha256_of(data: Seq<u8>) -> Seq<u8>;

/// Relies on `solana_program::hash::hash` (re-exported by `anchor_lang`),
/// the SHA-256 digest of its input, which depends on the bytes alone.
#[verifier::external_body]
fn sha256(data: &[u8]) -> (r: [u8; 32])
    ensures
        r@ == sha256_of(data@),
{
    anchor_lang::solana_program::hash::hash(data).to_bytes()
}

/// The `k` low bytes of `n`, least significant first.
pub open spec fn le_bytes(n: nat, k: nat) -> Seq<u8>
    decreases k,
{
    if k == 0 {
        seq![]
    } else {
        seq![(n % 256) as u8] + le_bytes(n / 256, (k - 1) as nat)
    }
}

/// The bytes that are hashed: the player's key, then the chain digest, then
/// the counter as eight little-endian bytes.
pub open spec fn mix_input(player_id: Seq<u8>, chain_digest: Seq<u8>, spin_counter: u64) -> Seq<
    u8,
> {
    player_id + chain_digest + le_bytes(spin_counter as nat, 8)
}

/// The digest that a spin draws from.
pub open spec fn mix_of(player_id: Seq<u8>, chain_digest: Seq<u8>, spin_counter: u64) -> Seq<u8> {
    sha256_of(mix_input(player_id, chain_digest, spin_counter))
}

/// The three reels read off a digest: each of its first three bytes modulo ten.
pub open spec fn extract_of(digest: Seq<u8>) -> Seq<u8> {
    seq![digest[0] % 10, digest[1] % 10, digest[2] % 10]
}

fn append_bytes(data: &mut Vec<u8>, bytes: &[u8; 32])
    ensures
        final(data)@ == old(data)@ + bytes@,
{
    let mut i: usize = 0;
    while i < 32
        invariant
            0 <= i <= 32,
            data@ == old(data)@ + bytes@.subrange(0, i as int),
        decreases 32 - i,
    {
        data.push(bytes[i]);
        i = i + 1;
        assert(data@ =~= old(data)@ + bytes@.subrange(0, i as int));
    }
    assert(bytes@.subrange(0, 32) =~= bytes@);
}

fn append_le_u64(data: &mut Vec<u8>, n: u64)
    ensures
        final(data)@ == old(data)@ + le_bytes(n as nat, 8),
{
    let mut x: u64 = n;
    let mut i: usize = 0;
    while i < 8
        invariant
            0 <= i <= 8,
            data@ + le_bytes(x as nat, (8 - i) as nat) == old(data)@ + le_bytes(n as nat, 8),
        decreases 8 - i,
    {
        let ghost before = data@;
        assert(le_bytes(x as nat, (8 - i) as nat) == seq![(x % 256) as u8] + le_bytes(
            (x / 256) as nat,
            (8 - i - 1) as nat,
        ));
        data.push((x % 256) as u8);
        x = x / 256;
        i = i + 1;
        assert(data@ + le_bytes(x as nat, (8 - i) as nat) =~= before + (seq![
            (data@.last())
        ] + le_bytes(x as nat, (8 - i) as nat)));
    }
    assert(le_bytes(x as nat, 0) =~= seq![]);
    assert(data@ + le_bytes(x as nat, 0) =~= data@);
}

/// Combines a player's key, a recent chain digest and the game's spin
/// counter into the digest that a spin draws from.
pub fn mix(player_id: &[u8; 32], chain_digest: &[u8; 32], spin_counter: u64) -> (r: [u8; 32])
    ensures
        r@ == mix_of(player_id@, chain_digest@, spin_counter),
{
    let mut data: Vec<u8> = Vec::new();
    append_bytes(&mut data, player_id);
    append_bytes(&mut data, chain_digest);
    append_le_u64(&mut data, spin_counter);
    assert(data@ =~= mix_input(player_id@, chain_digest@, spin_counter));
    sha256(data.as_slice())
}

/// Reads the three reels off a digest, in order.
pub fn extract(digest: &[u8; 32]) -> (r: [u8; 3])
    ensures
        r@ == extract_of(digest@),
        forall|i: int| 0 <= i < 3 ==> r@[i] <= 9,
{
    let r = [digest[0] % 10, digest[1] % 10, digest[2] % 10];
    assert(r@ =~= extract_of(digest@));
    r
}

/// The reels of a spin by `player` on the chain digest `recent_blockhash`
/// when the game has counted `game_nonce` spins.
pub fn generate_slot_result(player: &[u8; 32], recent_blockhash: &[u8; 32], game_nonce: u64) -> (r: [u8; 3])
    ensures
        r@ == extract_of(mix_of(player@, recent_blockhash@, game_nonce)),
{
    let digest = mix(player, recent_blockhash, game_nonce);
    extract(&digest)
}

} // verus!
