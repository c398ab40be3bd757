//! Authentication of webhook deliveries: the platform signs each body with
//! HMAC-SHA1 under a shared secret and sends `sha1=` and the digest in
//! lowercase hexadecimal.

use crate::text::{holds_at, lemma_ascii_bytes};
use vstd::prelude::*;
use vstd::string::*;
use vstd::utf8::*;

verus! {

/// The HMAC-SHA1 digest of `message` under `key`.
pub uninterp spec fn hmac_sha1_digest(key: Seq<u8>, message: Seq<u8>) -> Seq<u8>;

/// Computes the digest with `hmac_sha1::hmac_sha1`. Taken on trust: the call
/// returns the HMAC-SHA1 digest of the message under the key, 20 bytes that
/// depend on the two arguments alone; it accepts keys and messages of any
/// length.
#[verifier::external_body]
pub(crate) fn hmac_sha1(key: &[u8], message: &[u8]) -> (digest: [u8; 20])
    ensures
        digest@ == hmac_sha1_digest(key@, message@),
{
    hmac_sha1::hmac_sha1(key, message)
}

/// The ASCII code of the lowercase hexadecimal digit for a value below 16:
/// `0` to `9` are 48 to 57, and `a` to `f` are 97 to 102.
pub open spec fn hex_digit(nibble: int) -> u8 {
    if nibble < 10 {
        (48 + nibble) as u8
    } else {
        (87 + nibble) as u8
    }
}

/// Lowercase hexadecimal text of a byte string: two digits per byte, the high
/// half first.
pub open spec fn hex_lower(bytes: Seq<u8>) -> Seq<u8> {
    Seq::new(
        2 * bytes.len(),
        |i: int|
            if i % 2 == 0 {
                hex_digit(bytes[i / 2] as int / 16)
            } else {
                hex_digit(bytes[i / 2] as int % 16)
            },
    )
}

/// What every signature starts with.
pub open spec fn sha1_prefix() -> Seq<u8> {
    encode_utf8("sha1="@)
}

/// The prefix, byte by byte.
pub proof fn lemma_prefix_bytes()
    ensures
        sha1_prefix() == seq![115u8, 104, 97, 49, 61],
{
    reveal_strlit("sha1=");
    lemma_ascii_bytes("sha1="@, seq![115u8, 104, 97, 49, 61]);
}

/// The signature that belongs to a digest.
pub open spec fn signature_of(digest: Seq<u8>) -> Seq<u8> {
    sha1_prefix() + hex_lower(digest)
}

/// The signature that the platform sends with `body` when it holds `secret`.
pub open spec fn expected_signature(secret: Seq<u8>, body: Seq<u8>) -> Seq<u8> {
    signature_of(hmac_sha1_digest(secret, body))
}

fn digit(nibble: u8) -> (ascii: u8)
    requires
        nibble < 16,
    ensures
        ascii == hex_digit(nibble as int),
{
    if nibble < 10 {
        48 + nibble
    } else {
        87 + nibble
    }
}

/// Writes `bytes` as lowercase hexadecimal text.
pub fn to_hex(bytes: &[u8]) -> (text: Vec<u8>)
    ensures
        text@ == hex_lower(bytes@),
{
    let mut text: Vec<u8> = Vec::new();
    let mut i: usize = 0;
    while i < bytes.len()
        invariant
            i <= bytes.len(),
            text@.len() == 2 * i,
            forall|k: int| 0 <= k < text@.len() ==> text@[k] == hex_lower(bytes@)[k],
        decreases bytes.len() - i,
    {
        let b: u8 = bytes[i];
        text.push(digit(b / 16));
        text.push(digit(b % 16));
        i = i + 1;
    }
    text
}

/// Whether `signature` is the signature that belongs to `digest`: equal in
/// length and in every byte.
pub fn signature_matches(digest: &[u8; 20], signature: &[u8]) -> (ok: bool)
    ensures
        ok == (signature@ == signature_of(digest@)),
{
    let hex = to_hex(digest.as_slice());
    let prefix = "sha1=".as_bytes();
    proof {
        lemma_prefix_bytes();
    }
    if signature.len() != prefix.len() + hex.len() {
        return false;
    }
    let head = holds_at(signature, 0, prefix);
    let tail = holds_at(signature, prefix.len(), hex.as_slice());
    proof {
        let want = signature_of(digest@);
        assert(want.subrange(0, 5) =~= sha1_prefix());
        assert(want.subrange(5, 45) =~= hex@);
        if head && tail {
            assert(signature@ =~= signature@.subrange(0, 5) + signature@.subrange(5, 45));
        }
    }
    head && tail
}

} // verus!
