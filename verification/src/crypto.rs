//! Signatures over webhook bodies: HMAC-SHA256 tags and their comparison.

use hmac::Mac;
use vstd::prelude::*;

verus! {

/// The HMAC-SHA256 tag of `message` under `key`.
pub uninterp spec fn hmac_sha256_tag(key: Seq<u8>, message: Seq<u8>) -> Seq<u8>;

/// `Hmac::<Sha256>::new_from_slice`, `update` and `finalize` of the `hmac`
/// crate, with the tag copied out. Claims only that the tag is a function of
/// key and message. `new_from_slice` takes a key of any length: for HMAC it
/// has no error to give.
#[verifier::external_body]
pub(crate) fn hmac_sha256(key: &[u8], message: &[u8]) -> (tag: Vec<u8>)
    ensures
        tag@ == hmac_sha256_tag(key@, message@),
{
    let mut mac = hmac::Hmac::<sha2::Sha256>::new_from_slice(key).unwrap();
    mac.update(message);
    mac.finalize().into_bytes().to_vec()
}

/// The bitwise differences between two byte strings of one length, folded
/// into one byte: zero exactly when they are equal.
pub open spec fn difference(a: Seq<u8>, b: Seq<u8>) -> u8
    recommends
        a.len() == b.len(),
    decreases a.len(),
{
    if a.len() == 0 || b.len() == 0 {
        0u8
    } else {
        difference(a.drop_last(), b.drop_last()) | (a.last() ^ b.last())
    }
}

proof fn lemma_fold_zero(acc: u8, x: u8, y: u8)
    ensures
        (acc | (x ^ y)) == 0u8 <==> (acc == 0u8 && x == y),
{
    assert((acc | (x ^ y)) == 0u8 <==> (acc == 0u8 && x == y)) by (bit_vector);
}

/// The folded difference is zero exactly for equal strings.
pub proof fn lemma_difference_zero(a: Seq<u8>, b: Seq<u8>)
    requires
        a.len() == b.len(),
    ensures
        difference(a, b) == 0u8 <==> a == b,
    decreases a.len(),
{
    if a.len() == 0 {
        assert(a =~= b);
    } else {
        lemma_difference_zero(a.drop_last(), b.drop_last());
        lemma_fold_zero(difference(a.drop_last(), b.drop_last()), a.last(), b.last());
        if a.drop_last() == b.drop_last() && a.last() == b.last() {
            assert(a =~= a.drop_last().push(a.last()));
            assert(b =~= b.drop_last().push(b.last()));
        }
    }
}

/// Whether two byte strings are equal. Strings of one length are compared
/// in full, whatever they hold: where they first differ does not change the
/// work done.
pub fn constant_time_eq(a: &[u8], b: &[u8]) -> (r: bool)
    ensures
        r == (a@ == b@),
{
    if a.len() != b.len() {
        return false;
    }
    let mut acc: u8 = 0;
    let mut i: usize = 0;
    while i < a.len()
        invariant
            i <= a@.len(),
            a@.len() == b@.len(),
            acc == difference(a@.take(i as int), b@.take(i as int)),
        decreases a@.len() - i,
    {
        assert(a@.take(i + 1).drop_last() =~= a@.take(i as int));
        assert(b@.take(i + 1).drop_last() =~= b@.take(i as int));
        acc = acc | (a[i] ^ b[i]);
        i = i + 1;
    }
    proof {
        assert(a@.take(i as int) =~= a@);
        assert(b@.take(i as int) =~= b@);
        lemma_difference_zero(a@, b@);
    }
    acc == 0
}

/// Whether `signature` is the HMAC-SHA256 tag of `message` under `secret`.
pub fn verify_hmac_sha256(secret: &[u8], signature: &[u8], message: &[u8]) -> (r: bool)
    ensures
        r == (signature@ == hmac_sha256_tag(secret@, message@)),
{
    let expected = hmac_sha256(secret, message);
    constant_time_eq(expected.as_slice(), signature)
}

} // verus!
