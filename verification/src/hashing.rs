//! Byte strings and SHA-256 digests shared by all statements.

use sha2::Digest;
use vstd::prelude::*;

verus! {

/// SHA-256 as a mathematical function from byte strings to byte strings.
pub uninterp spec fn sha256(data: Seq<u8>) -> Seq<u8>;

/// Hashes `data` with `sha2::Sha256::digest`.
///
/// Trusted: the returned 32 bytes are the SHA-256 digest of exactly the bytes
/// of `data`, which is what `sha256` stands for. Nothing else is claimed.
#[verifier::external_body]
pub(crate) fn sha256_digest(data: &[u8]) -> (out: [u8; 32])
    ensures
        out@ == sha256(data@),
{
    sha2::Sha256::digest(data).into()
}

/// Whether `x` and `y` are different byte strings with the same digest.
pub open spec fn collides(x: Seq<u8>, y: Seq<u8>) -> bool {
    x != y && sha256(x) == sha256(y)
}

/// Whether SHA-256 has a collision at all. The security of every digest in
/// this crate rests on nobody being able to exhibit one.
pub open spec fn collision_exists() -> bool {
    exists|x: Seq<u8>, y: Seq<u8>| collides(x, y)
}

/// Different byte strings have different digests, or they are a collision.
pub proof fn digests_differ_or_collide(x: Seq<u8>, y: Seq<u8>)
    requires
        x != y,
    ensures
        sha256(x) != sha256(y) || collision_exists(),
{
    if sha256(x) == sha256(y) {
        assert(collides(x, y));
    }
}

/// The one-byte encoding of a flag: 1 for `true`, 0 for `false`.
pub open spec fn bool_byte(flag: bool) -> u8 {
    if flag { 1u8 } else { 0u8 }
}

/// Appends the bytes of `src` to `buf`, in order.
pub fn append_bytes(buf: &mut Vec<u8>, src: &[u8])
    ensures
        final(buf)@ == old(buf)@ + src@,
{
    let ghost start = buf@;
    let n: usize = src.len();
    let mut i: usize = 0;
    while i < n
        invariant
            n == src@.len(),
            i <= n,
            buf@ == start + src@.subrange(0, i as int),
        decreases n - i,
    {
        buf.push(src[i]);
        i = i + 1;
        assert(buf@ =~= start + src@.subrange(0, i as int));
    }
    assert(src@.subrange(0, n as int) =~= src@);
}

/// Whether two digests hold the same 32 bytes.
pub fn digests_equal(a: &[u8; 32], b: &[u8; 32]) -> (same: bool)
    ensures
        same == (a@ == b@),
{
    let mut i: usize = 0;
    while i < 32
        invariant
            i <= 32,
            forall|k: int| 0 <= k < i ==> a@[k] == b@[k],
        decreases 32 - i,
    {
        if a[i] != b[i] {
            return false;
        }
        i = i + 1;
    }
    assert(a@ =~= b@);
    true
}

} // verus!
