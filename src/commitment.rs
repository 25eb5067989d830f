//! Commitments: a move hidden behind a secret until it is revealed.
use vstd::prelude::*;
use vstd::bytes::{spec_u64_to_le_bytes, u64_to_le_bytes, lemma_auto_spec_u64_to_from_le_bytes};
use crate::movement::{GameMovement, move_tag};
use crate::Secret;

verus! {

/// The 64-bit xxHash digest (seed 0, little-endian) of `data`.
pub uninterp spec fn twox_64_of(data: Seq<u8>) -> Seq<u8>;

/// Relies on `sp_io::hashing::twox_64`: its digest depends on the bytes alone.
#[verifier::external_body]
fn twox_64(data: &[u8]) -> (r: [u8; 8])
    ensures
        r@ == twox_64_of(data@),
{
    sp_io::hashing::twox_64(data)
}

/// The bytes that are hashed: the move's tag, then the secret as eight
/// little-endian bytes.
pub open spec fn encode(m: GameMovement, secret: Secret) -> Seq<u8> {
    seq![move_tag(m)] + spec_u64_to_le_bytes(secret)
}

/// The commitment to `m` under `secret`.
pub open spec fn commitment_of(m: GameMovement, secret: Secret) -> Seq<u8> {
    twox_64_of(encode(m, secret))
}

/// `c` is the commitment to `m` under `secret`.
pub open spec fn verifies(c: Seq<u8>, m: GameMovement, secret: Secret) -> bool {
    c == commitment_of(m, secret)
}

/// A commitment to a move: the digest of the move and a secret.
#[derive(Clone, Copy, Debug, PartialEq, Eq)]
pub struct SecretGameMovement(pub [u8; 8]);

impl View for SecretGameMovement {
    type V = Seq<u8>;

    open spec fn view(&self) -> Seq<u8> {
        self.0@
    }
}

fn encode_movement(movement: GameMovement, secret: Secret) -> (r: Vec<u8>)
    ensures
        r@ == encode(movement, secret),
{
    let tag = movement.to_bytes();
    let mut bytes: Vec<u8> = Vec::new();
    bytes.push(tag[0]);
    let secret_bytes = u64_to_le_bytes(secret);
    let mut i: usize = 0;
    while i < secret_bytes.len()
        invariant
            i <= secret_bytes@.len(),
            secret_bytes@ == spec_u64_to_le_bytes(secret),
            bytes@ == seq![move_tag(movement)] + secret_bytes@.subrange(0, i as int),
        decreases secret_bytes@.len() - i,
    {
        bytes.push(secret_bytes[i]);
        i = i + 1;
        assert(bytes@ =~= seq![move_tag(movement)] + secret_bytes@.subrange(0, i as int));
    }
    assert(secret_bytes@.subrange(0, i as int) =~= secret_bytes@);
    bytes
}

impl SecretGameMovement {
    /// Commits to `movement` under `secret`.
    pub fn new(movement: GameMovement, secret: Secret) -> (r: SecretGameMovement)
        ensures
            r@ == commitment_of(movement, secret),
    {
        let bytes = encode_movement(movement, secret);
        SecretGameMovement(twox_64(bytes.as_slice()))
    }

    /// Returns true when `digest` is exactly this commitment.
    pub fn opens(&self, digest: [u8; 8]) -> (r: bool)
        ensures
            r == (self@ == digest@),
    {
        let mut i: usize = 0;
        while i < 8
            invariant
                i <= 8,
                forall|j: int| 0 <= j < i ==> self.0[j] == digest[j],
            decreases 8 - i,
        {
            if self.0[i] != digest[i] {
                assert(self@[i as int] != digest@[i as int]);
                return false;
            }
            i = i + 1;
        }
        assert(self@ =~= digest@);
        true
    }

    /// Returns true when this commitment was made to `movement` under `secret`.
    pub fn is_equal(&self, movement: GameMovement, secret: Secret) -> (r: bool)
        ensures
            r == verifies(self@, movement, secret),
    {
        let other = SecretGameMovement::new(movement, secret);
        self.opens(other.0)
    }
}

/// A commitment made to a move under a secret is accepted for that same
/// move and secret.
pub proof fn lemma_commitment_verifies(m: GameMovement, secret: Secret)
    ensures
        verifies(commitment_of(m, secret), m, secret),
{
}

/// Two different (move, secret) pairs are hashed from different bytes, so a
/// commitment accepts another pair only through a collision of the digest.
pub proof fn lemma_encoding_injective(m1: GameMovement, s1: Secret, m2: GameMovement, s2: Secret)
    requires
        m1 != m2 || s1 != s2,
    ensures
        encode(m1, s1) != encode(m2, s2),
        verifies(commitment_of(m1, s1), m2, s2) <==> twox_64_of(encode(m1, s1)) == twox_64_of(
            encode(m2, s2),
        ),
{
    lemma_auto_spec_u64_to_from_le_bytes();
    if encode(m1, s1) == encode(m2, s2) {
        assert(encode(m1, s1)[0] == move_tag(m1));
        assert(encode(m2, s2)[0] == move_tag(m2));
        assert(encode(m1, s1).subrange(1, 9) =~= spec_u64_to_le_bytes(s1));
        assert(encode(m2, s2).subrange(1, 9) =~= spec_u64_to_le_bytes(s2));
    }
}

} // verus!
