//! Phone number hashes.

use hmac::{Hmac, Mac};
use sha2::{Digest, Sha256};
use vstd::prelude::*;
use vstd::utf8::encode_utf8;

verus! {

/// The HMAC-SHA256 code of a message under a key.
pub uninterp spec fn hmac_sha256(key: Seq<u8>, message: Seq<u8>) -> Seq<u8>;

/// The SHA-256 digest of some data.
pub uninterp spec fn sha256(data: Seq<u8>) -> Seq<u8>;

/// The lower case hexadecimal digit of `d`, for `d` below sixteen.
pub open spec fn hex_char(d: int) -> char {
    if d < 10 {
        (48 + d) as char
    } else {
        (87 + d) as char
    }
}

/// Whether `c` is one of `0` to `9` and `a` to `f`.
pub open spec fn is_hex_char(c: char) -> bool {
    '0' <= c <= '9' || 'a' <= c <= 'f'
}

/// Two hexadecimal digits per byte, the high half first.
pub open spec fn hex_text(data: Seq<u8>) -> Seq<char> {
    Seq::new(
        2 * data.len(),
        |i: int| hex_char(if i % 2 == 0 { data[i / 2] as int / 16 } else { data[i / 2] as int % 16 }),
    )
}

/// The keyed hash of a phone number, as text.
pub open spec fn phone_hash(phone: Seq<char>, secret: Seq<u8>) -> Seq<char> {
    hex_text(hmac_sha256(secret, encode_utf8(phone)))
}

/// The unkeyed hash of a phone number, as text.
pub open spec fn legacy_phone_hash(phone: Seq<char>) -> Seq<char> {
    hex_text(sha256(encode_utf8(phone)))
}

/// Whether `s` can be the text of a 32 byte digest.
pub open spec fn is_hash_text(s: Seq<char>) -> bool {
    &&& s.len() == 64
    &&& forall|i: int| 0 <= i < s.len() ==> is_hex_char(#[trigger] s[i])
}

/// Runs `hmac::Hmac<Sha256>` over one message: `new_from_slice`, which takes a key of any length,
/// then `update` and `finalize`. The code is a function of key and message, and 32 bytes long.
#[verifier::external_body]
fn hmac_sha256_code(key: &[u8], message: &[u8]) -> (code: Vec<u8>)
    ensures
        code@ == hmac_sha256(key@, message@),
        code@.len() == 32,
{
    let mut mac =
        Hmac::<Sha256>::new_from_slice(key).expect("HMAC takes a key of any length");
    mac.update(message);
    mac.finalize().into_bytes().to_vec()
}

/// Calls `sha2::Sha256::digest`. The digest is a function of the data, and 32 bytes long.
#[verifier::external_body]
fn sha256_digest(data: &[u8]) -> (digest: Vec<u8>)
    ensures
        digest@ == sha256(data@),
        digest@.len() == 32,
{
    Sha256::digest(data).to_vec()
}

/// Calls `hex::encode`, which writes each byte as two lower case hexadecimal digits.
#[verifier::external_body]
fn hex_encode(data: &[u8]) -> (s: String)
    requires
        2 * data@.len() <= isize::MAX,
    ensures
        s@ == hex_text(data@),
{
    hex::encode(data)
}

/// The text under which a 32 byte digest is stored.
pub fn digest_text(digest: &[u8]) -> (s: String)
    requires
        digest@.len() == 32,
    ensures
        s@ == hex_text(digest@),
        is_hash_text(s@),
{
    hex_encode(digest)
}

/// The HMAC-SHA256 hash of a phone number under the secret of the server, in hexadecimal.
///
/// The secret keeps the hashes out of precomputed tables.
pub fn hash_phone(phone: &str, secret: &[u8]) -> (s: String)
    ensures
        s@ == phone_hash(phone@, secret@),
        is_hash_text(s@),
{
    let code = hmac_sha256_code(secret, phone.as_bytes());
    digest_text(code.as_slice())
}

/// The plain SHA-256 hash of a phone number, in hexadecimal.
///
/// Only records from before the keyed hash carry it: new ones use [`hash_phone`].
pub fn hash_phone_sha256(phone: &str) -> (s: String)
    ensures
        s@ == legacy_phone_hash(phone@),
        is_hash_text(s@),
{
    let digest = sha256_digest(phone.as_bytes());
    digest_text(digest.as_slice())
}

proof fn hex_char_injective(a: int, b: int)
    requires
        0 <= a < 16,
        0 <= b < 16,
    ensures
        hex_char(a) == hex_char(b) ==> a == b,
{
}

/// Hexadecimal text tells digests apart: equal texts come from equal bytes.
pub proof fn hex_text_injective(a: Seq<u8>, b: Seq<u8>)
    requires
        hex_text(a) == hex_text(b),
    ensures
        a == b,
{
    assert(hex_text(a).len() == 2 * a.len());
    assert(hex_text(b).len() == 2 * b.len());
    assert forall|k: int| 0 <= k < a.len() implies a[k] == b[k] by {
        let high = 2 * k;
        let low = 2 * k + 1;
        assert(high / 2 == k && low / 2 == k && high % 2 == 0 && low % 2 == 1);
        assert(hex_text(a)[high] == hex_char(a[k] as int / 16));
        assert(hex_text(b)[high] == hex_char(b[k] as int / 16));
        assert(hex_text(a)[low] == hex_char(a[k] as int % 16));
        assert(hex_text(b)[low] == hex_char(b[k] as int % 16));
        hex_char_injective(a[k] as int / 16, b[k] as int / 16);
        hex_char_injective(a[k] as int % 16, b[k] as int % 16);
    }
    assert(a =~= b);
}

/// Two phone numbers share a keyed hash exactly if they share a code under the secret.
pub proof fn phone_hashes_agree_with_codes(a: Seq<char>, b: Seq<char>, secret: Seq<u8>)
    ensures
        phone_hash(a, secret) == phone_hash(b, secret) <==> hmac_sha256(secret, encode_utf8(a))
            == hmac_sha256(secret, encode_utf8(b)),
{
    if phone_hash(a, secret) == phone_hash(b, secret) {
        hex_text_injective(
            hmac_sha256(secret, encode_utf8(a)),
            hmac_sha256(secret, encode_utf8(b)),
        );
    }
}

/// The value of a lower case hexadecimal digit.
pub open spec fn hex_value(c: char) -> int {
    if '0' <= c <= '9' {
        c as int - '0' as int
    } else {
        c as int - 'a' as int + 10
    }
}

/// Hexadecimal text reads back: two digits per byte, and each pair stands for its byte.
pub proof fn hex_text_reads_back(data: Seq<u8>)
    ensures
        hex_text(data).len() == 2 * data.len(),
        forall|i: int| 0 <= i < 2 * data.len() ==> is_hex_char(#[trigger] hex_text(data)[i]),
        forall|k: int|
            0 <= k < data.len() ==> 16 * hex_value(hex_text(data)[2 * k]) + hex_value(
                hex_text(data)[2 * k + 1],
            ) == #[trigger] data[k],
{
    assert forall|k: int| 0 <= k < data.len() implies 16 * hex_value(hex_text(data)[2 * k])
        + hex_value(hex_text(data)[2 * k + 1]) == #[trigger] data[k] by {
        assert((2 * k) / 2 == k && (2 * k + 1) / 2 == k && (2 * k) % 2 == 0 && (2 * k + 1) % 2
            == 1);
    }
}

/// The keyed hash of a phone number is the HMAC-SHA256 code of the whole number under the whole
/// secret, byte by byte.
pub proof fn phone_hash_spells_the_code(phone: Seq<char>, secret: Seq<u8>)
    ensures
        ({
            let code = hmac_sha256(secret, encode_utf8(phone));
            let text = phone_hash(phone, secret);
            &&& text.len() == 2 * code.len()
            &&& forall|k: int|
                0 <= k < code.len() ==> 16 * hex_value(text[2 * k]) + hex_value(text[2 * k + 1])
                    == #[trigger] code[k]
        }),
{
    hex_text_reads_back(hmac_sha256(secret, encode_utf8(phone)));
}

/// The plain hash of a phone number is the SHA-256 digest of the whole number, byte by byte.
pub proof fn plain_hash_spells_the_digest(phone: Seq<char>)
    ensures
        ({
            let digest = sha256(encode_utf8(phone));
            let text = legacy_phone_hash(phone);
            &&& text.len() == 2 * digest.len()
            &&& forall|k: int|
                0 <= k < digest.len() ==> 16 * hex_value(text[2 * k]) + hex_value(text[2 * k + 1])
                    == #[trigger] digest[k]
        }),
{
    hex_text_reads_back(sha256(encode_utf8(phone)));
}

} // verus!
