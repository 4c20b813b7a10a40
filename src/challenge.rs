use vstd::prelude::*;
use crate::error::BenchError;

verus! {

/// The number of bytes in a challenge.
pub const CHALLENGE_LEN: usize = 32;

/// The fixed-size input shared by every search unit of one benchmark run.
#[derive(Debug, Clone, Copy, PartialEq, Eq)]
pub struct Challenge {
    pub bytes: [u8; 32],
}

/// What `drillx::hash` returns for a challenge and a nonce: its 32-byte
/// hash, or nothing where the equihash solver found no solution.
pub uninterp spec fn drillx_hash_of(challenge: Seq<u8>, nonce: u64) -> Option<Seq<u8>>;

/// The view of an optional digest.
pub open spec fn digest_view(d: Option<[u8; 32]>) -> Option<Seq<u8>> {
    match d {
        Some(a) => Some(a@),
        None => None,
    }
}

/// Relies on `drillx::hash`, called with the nonce's little-endian bytes:
/// its result is a function of the challenge and the nonce alone; the
/// `h` field of the `Hash` it returns is kept, an error becomes `None`.
#[verifier::external_body]
fn drillx_hash(challenge: &[u8; 32], nonce: u64) -> (r: Option<[u8; 32]>)
    ensures
        digest_view(r) == drillx_hash_of(challenge@, nonce),
{
    drillx::hash(challenge, &nonce.to_le_bytes()).ok().map(|h| h.h)
}

impl Challenge {
    /// The all-zero challenge.
    pub fn zeroed() -> (r: Challenge)
        ensures
            forall|i: int| 0 <= i < 32 ==> r.bytes@[i] == 0u8,
    {
        Challenge { bytes: [0u8; 32] }
    }

    /// Takes a challenge out of untrusted bytes: exactly 32 are accepted.
    pub fn from_bytes(b: &Vec<u8>) -> (r: Result<Challenge, BenchError>)
        ensures
            b@.len() == CHALLENGE_LEN ==> (r matches Ok(c) && c.bytes@ == b@),
            b@.len() != CHALLENGE_LEN ==> r == Err::<Challenge, BenchError>(BenchError::MalformedRequest),
    {
        if b.len() != CHALLENGE_LEN {
            return Err(BenchError::MalformedRequest);
        }
        let mut bytes = [0u8; 32];
        let mut i: usize = 0;
        while i < CHALLENGE_LEN
            invariant
                b@.len() == CHALLENGE_LEN,
                i <= CHALLENGE_LEN,
                bytes@.len() == CHALLENGE_LEN,
                forall|j: int| 0 <= j < i ==> bytes@[j] == b@[j],
            decreases CHALLENGE_LEN - i,
        {
            bytes[i] = b[i];
            i = i + 1;
        }
        assert(bytes@ =~= b@);
        Ok(Challenge { bytes })
    }

    /// The bytes of the challenge, as carried in a request.
    pub fn to_vec(&self) -> (r: Vec<u8>)
        ensures
            r@ == self.bytes@,
    {
        let mut v: Vec<u8> = Vec::new();
        let mut i: usize = 0;
        while i < CHALLENGE_LEN
            invariant
                i <= CHALLENGE_LEN,
                self.bytes@.len() == CHALLENGE_LEN,
                v@ == self.bytes@.subrange(0, i as int),
            decreases CHALLENGE_LEN - i,
        {
            v.push(self.bytes[i]);
            i = i + 1;
            assert(v@ =~= self.bytes@.subrange(0, i as int));
        }
        assert(v@ =~= self.bytes@);
        v
    }

    /// The digest of one candidate value under this challenge.
    pub fn digest(&self, nonce: u64) -> (r: Option<[u8; 32]>)
        ensures
            digest_view(r) == drillx_hash_of(self.bytes@, nonce),
    {
        drillx_hash(&self.bytes, nonce)
    }
}

/// Identical challenge and candidate pairs always have the identical digest.
pub proof fn lemma_digest_deterministic(c1: Seq<u8>, n1: u64, c2: Seq<u8>, n2: u64)
    requires
        c1 == c2,
        n1 == n2,
    ensures
        drillx_hash_of(c1, n1) == drillx_hash_of(c2, n2),
{
}

} // verus!
