use vstd::prelude::*;

use sha2::Digest;

verus! {

/// What SHA-256 hashes given bytes to. The digest is a function of the input
/// bytes alone, the same in every process; nothing else is assumed of it.
pub uninterp spec fn sha256_of(data: Seq<u8>) -> Seq<u8>;

/// Relies on sha2's `Sha256`: the 32-byte SHA-256 digest of `data`, a
/// function of `data` alone.
#[verifier::external_body]
pub(crate) fn sha256(data: &[u8]) -> (r: [u8; 32])
    ensures
        r@ == sha256_of(data@),
{
    let digest = sha2::Sha256::digest(data);
    let mut out = [0u8; 32];
    out.copy_from_slice(&digest);
    out
}

/// The little-endian bytes of a 64-bit value, least significant first.
pub open spec fn spec_u64_le_bytes(x: u64) -> Seq<u8> {
    seq![
        (x & 0xff) as u8,
        ((x >> 8) & 0xff) as u8,
        ((x >> 16) & 0xff) as u8,
        ((x >> 24) & 0xff) as u8,
        ((x >> 32) & 0xff) as u8,
        ((x >> 40) & 0xff) as u8,
        ((x >> 48) & 0xff) as u8,
        ((x >> 56) & 0xff) as u8,
    ]
}

fn push_u64_le(out: &mut Vec<u8>, x: u64)
    ensures
        final(out)@ == old(out)@ + spec_u64_le_bytes(x),
{
    out.push((x & 0xff) as u8);
    out.push(((x >> 8) & 0xff) as u8);
    out.push(((x >> 16) & 0xff) as u8);
    out.push(((x >> 24) & 0xff) as u8);
    out.push(((x >> 32) & 0xff) as u8);
    out.push(((x >> 40) & 0xff) as u8);
    out.push(((x >> 48) & 0xff) as u8);
    out.push(((x >> 56) & 0xff) as u8);
    proof {
        assert(out@ =~= old(out)@ + spec_u64_le_bytes(x));
    }
}

/// The preimage an amplification-ramp commitment hashes: the target, the
/// duration and a salt, each in little-endian bytes.
pub open spec fn amp_ramp_preimage(target: u64, duration: i64, salt: Seq<u8>) -> Seq<u8> {
    spec_u64_le_bytes(target) + spec_u64_le_bytes(duration as u64) + salt
}

/// The commitment hash for an amplification ramp to `target` over `duration`,
/// blinded by `salt`. Committing this value and later revealing the three
/// preimage parts is how a ramp is scheduled.
pub fn amp_commit_hash(target: u64, duration: i64, salt: &[u8; 32]) -> (r: [u8; 32])
    requires
        duration >= 0,
    ensures
        r@ == sha256_of(amp_ramp_preimage(target, duration, salt@)),
{
    let mut data: Vec<u8> = Vec::new();
    push_u64_le(&mut data, target);
    push_u64_le(&mut data, duration as u64);
    let mut i: usize = 0;
    while i < 32
        invariant
            i <= 32,
            data@ == spec_u64_le_bytes(target) + spec_u64_le_bytes(duration as u64) + salt@
                .subrange(0, i as int),
        decreases 32 - i,
    {
        data.push(salt[i]);
        proof {
            assert(salt@.subrange(0, i + 1) =~= salt@.subrange(0, i as int) + seq![salt@[i as int]]);
            assert(data@ =~= spec_u64_le_bytes(target) + spec_u64_le_bytes(duration as u64) + salt@
                .subrange(0, i + 1));
        }
        i = i + 1;
    }
    proof {
        assert(salt@.subrange(0, 32) =~= salt@);
        assert(data@ =~= amp_ramp_preimage(target, duration, salt@));
    }
    sha256(data.as_slice())
}

/// Whether two 32-byte values hold the same bytes.
pub fn bytes32_eq(a: &[u8; 32], b: &[u8; 32]) -> (r: bool)
    ensures
        r == (a@ == b@),
{
    let mut i: usize = 0;
    while i < 32
        invariant
            i <= 32,
            forall|j: int| 0 <= j < i ==> a@[j] == b@[j],
        decreases 32 - i,
    {
        if a[i] != b[i] {
            return false;
        }
        i = i + 1;
    }
    proof {
        assert(a@ =~= b@);
    }
    true
}

} // verus!
