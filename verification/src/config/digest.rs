//! The password digest: the salted SHA-256 of the password, in lowercase
//! hexadecimal. This text is what the two peers compare.

use crate::text::append_bytes;
use sha2::{Digest, Sha256};
use vstd::prelude::*;
use vstd::utf8::encode_utf8;

verus! {

/// The length in bytes of a SHA-256 digest.
pub const SHA256_LEN: usize = 32;

/// The SHA-256 digest of `data`.
pub uninterp spec fn sha256(data: Seq<u8>) -> Seq<u8>;

/// `Sha256::digest` of the `sha2` crate: the digest is a function of the
/// data alone and is 32 bytes long.
#[verifier::external_body]
fn sha256_digest(data: &[u8]) -> (out: Vec<u8>)
    ensures
        out@ == sha256(data@),
        out@.len() == SHA256_LEN,
{
    Sha256::digest(data).to_vec()
}

/// The salt that every password is hashed with.
pub open spec fn salt() -> Seq<char> {
    "saltmakesfoodtastegood"@
}

/// The lowercase hexadecimal digit for a value below sixteen.
pub open spec fn hex_digit(n: int) -> char {
    if n < 10 {
        (48 + n) as char
    } else {
        (87 + n) as char
    }
}

/// The lowercase hexadecimal spelling of `bytes`, two digits to the byte,
/// the high one first.
pub open spec fn hex_lower(bytes: Seq<u8>) -> Seq<char> {
    Seq::new(
        2 * bytes.len(),
        |i: int|
            if i % 2 == 0 {
                hex_digit(bytes[i / 2] as int / 16)
            } else {
                hex_digit(bytes[i / 2] as int % 16)
            },
    )
}

/// The digest text of a password under a salt: SHA-256 over the password
/// followed by the salt, in lowercase hexadecimal.
pub open spec fn salted_text(password: Seq<char>, salt: Seq<char>) -> Seq<char> {
    hex_lower(sha256(encode_utf8(password) + encode_utf8(salt)))
}

/// The digest text of a password.
pub open spec fn digest_text(password: Seq<char>) -> Seq<char> {
    salted_text(password, salt())
}

/// A hexadecimal spelling is plain ASCII, so that it takes one byte to the
/// digit on the wire.
pub proof fn lemma_hex_is_ascii(bytes: Seq<u8>)
    ensures
        vstd::utf8::is_ascii_chars(hex_lower(bytes)),
        encode_utf8(hex_lower(bytes)).len() == 2 * bytes.len(),
{
    let text = hex_lower(bytes);
    assert forall|i: int| 0 <= i < text.len() implies '\0' <= #[trigger] text[i] <= '\u{7f}' by {
        let b = bytes[i / 2] as int;
        assert(0 <= b / 16 < 16 && 0 <= b % 16 < 16);
    }
    vstd::utf8::is_ascii_chars_encode_utf8(text);
}

fn digit(n: u8) -> (c: char)
    requires
        n < 16,
    ensures
        c == hex_digit(n as int),
{
    if n < 10 {
        (48u8 + n) as char
    } else {
        (87u8 + n) as char
    }
}

/// Spells `bytes` in lowercase hexadecimal.
pub fn to_hex(bytes: &[u8]) -> (text: String)
    ensures
        text@ == hex_lower(bytes@),
{
    let mut text = String::new();
    let mut i: usize = 0;
    while i < bytes.len()
        invariant
            i <= bytes@.len(),
            text@ == hex_lower(bytes@.take(i as int)),
        decreases bytes.len() - i,
    {
        let b = bytes[i];
        let ghost before = text@;
        text.push(digit(b / 16));
        text.push(digit(b % 16));
        assert(text@ =~= hex_lower(bytes@.take(i + 1))) by {
            assert(text@ == before.push(hex_digit(b as int / 16)).push(hex_digit(b as int % 16)));
            assert(bytes@.take(i + 1) =~= bytes@.take(i as int).push(b));
        }
        i += 1;
    }
    assert(bytes@.take(i as int) =~= bytes@);
    text
}

/// The digest text of a password under a salt. It is always 64 characters
/// long, and as many bytes.
pub fn salted_digest(password: &str, salt: &str) -> (text: String)
    ensures
        text@ == salted_text(password@, salt@),
        text@.len() == 2 * SHA256_LEN,
        encode_utf8(text@).len() == 2 * SHA256_LEN,
{
    let mut data: Vec<u8> = Vec::new();
    append_bytes(&mut data, password.as_bytes());
    append_bytes(&mut data, salt.as_bytes());
    let digest = sha256_digest(data.as_slice());
    proof {
        lemma_hex_is_ascii(digest@);
    }
    to_hex(digest.as_slice())
}

/// The digest text of a password under the salt of this crate. It is
/// always 64 characters long, and as many bytes.
pub fn password_digest(password: &str) -> (text: String)
    ensures
        text@ == digest_text(password@),
        text@.len() == 2 * SHA256_LEN,
        encode_utf8(text@).len() == 2 * SHA256_LEN,
{
    salted_digest(password, "saltmakesfoodtastegood")
}

} // verus!
