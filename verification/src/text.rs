//! Text and byte helpers shared by the configuration and the session.
//!
//! The standard library's string operations that the verifier knows nothing
//! about are given their contracts here, beside the small verified routines
//! that the rest of the crate builds on them.

use vstd::prelude::*;
use vstd::utf8::{decode_utf8, encode_utf8, valid_utf8};

verus! {

/// What `char::is_whitespace` answers for `c`: whether `c` has the Unicode
/// property `White_Space`.
pub uninterp spec fn white_space(c: char) -> bool;

/// `char::is_whitespace` is a function of the character alone.
pub assume_specification[ char::is_whitespace ](c: char) -> (b: bool)
    ensures
        b == white_space(c),
;

/// `s` without its leading whitespace.
pub open spec fn trimmed_start(s: Seq<char>) -> Seq<char>
    decreases s.len(),
{
    if s.len() > 0 && white_space(s.first()) {
        trimmed_start(s.drop_first())
    } else {
        s
    }
}

/// `s` without its trailing whitespace.
pub open spec fn trimmed_end(s: Seq<char>) -> Seq<char>
    decreases s.len(),
{
    if s.len() > 0 && white_space(s.last()) {
        trimmed_end(s.drop_last())
    } else {
        s
    }
}

/// `s` without its leading and trailing whitespace.
pub open spec fn trimmed(s: Seq<char>) -> Seq<char> {
    trimmed_end(trimmed_start(s))
}

/// `str::trim` returns the slice with leading and trailing whitespace
/// removed, whitespace being what `char::is_whitespace` accepts.
pub assume_specification[ str::trim ](s: &str) -> (t: &str)
    ensures
        t@ == trimmed(s@),
;

/// `String::push` appends the character to the end of the string.
pub assume_specification[ String::push ](s: &mut String, ch: char)
    ensures
        final(s)@ == old(s)@.push(ch),
;

/// `String::pop` removes the last character and returns it, or returns
/// `None` and changes nothing when the string is empty.
pub assume_specification[ String::pop ](s: &mut String) -> (last: Option<char>)
    ensures
        match last {
            Some(c) => old(s)@.len() > 0 && c == old(s)@.last() && final(s)@ == old(s)@.drop_last(),
            None => old(s)@.len() == 0 && final(s)@ == old(s)@,
        },
;

/// `String::clear` removes all contents.
pub assume_specification[ String::clear ](s: &mut String)
    ensures
        final(s)@ == Seq::<char>::empty(),
;

/// `std::string::FromUtf8Error`, the error of `String::from_utf8`. It is
/// told apart from success and never looked into.
#[verifier::external_type_specification]
#[verifier::external_body]
pub struct ExFromUtf8Error(std::string::FromUtf8Error);

/// `String::from_utf8` succeeds exactly on well-formed UTF-8, and then holds
/// the characters that the bytes encode.
pub assume_specification[ String::from_utf8 ](vec: Vec<u8>) -> (res: Result<
    String,
    std::string::FromUtf8Error,
>)
    ensures
        res is Ok <==> valid_utf8(vec@),
        res matches Ok(s) ==> s@ == decode_utf8(vec@),
;

/// What `String::from_utf8_lossy` makes of `bytes`: the decoded text, with
/// U+FFFD in place of each ill-formed sequence.
pub uninterp spec fn utf8_lossy(bytes: Seq<u8>) -> Seq<char>;

/// `String::from_utf8_lossy` is a function of the bytes alone.
#[verifier::external_body]
pub(crate) fn from_utf8_lossy(bytes: &[u8]) -> (text: String)
    ensures
        text@ == utf8_lossy(bytes@),
{
    String::from_utf8_lossy(bytes).into_owned()
}

/// `bytes` followed by as many zero bytes as it takes to reach `len`;
/// `bytes` itself where it is already that long.
pub open spec fn padded(bytes: Seq<u8>, len: nat) -> Seq<u8> {
    if bytes.len() < len {
        bytes + Seq::new((len - bytes.len()) as nat, |i: int| 0u8)
    } else {
        bytes
    }
}

/// Copies `bytes` and fills the copy up to `len` with zero bytes.
pub fn pad(bytes: &[u8], len: usize) -> (out: Vec<u8>)
    ensures
        out@ == padded(bytes@, len as nat),
{
    let mut out: Vec<u8> = Vec::new();
    append_bytes(&mut out, bytes);
    while out.len() < len
        invariant
            bytes@.len() <= out@.len(),
            out@.len() > bytes@.len() ==> out@.len() <= len,
            out@ == bytes@ + Seq::new((out@.len() - bytes@.len()) as nat, |i: int| 0u8),
        decreases len - out.len(),
    {
        out.push(0u8);
    }
    out
}

/// Appends a copy of `src` to `dst`.
pub fn append_bytes(dst: &mut Vec<u8>, src: &[u8])
    ensures
        final(dst)@ == old(dst)@ + src@,
{
    let mut i: usize = 0;
    while i < src.len()
        invariant
            i <= src@.len(),
            dst@ == old(dst)@ + src@.take(i as int),
        decreases src.len() - i,
    {
        dst.push(src[i]);
        i += 1;
    }
    assert(src@.take(i as int) =~= src@);
}

/// Whether two byte strings are equal, byte for byte.
pub fn same_bytes(a: &[u8], b: &[u8]) -> (same: bool)
    ensures
        same == (a@ == b@),
{
    if a.len() != b.len() {
        return false;
    }
    let mut i: usize = 0;
    while i < a.len()
        invariant
            a@.len() == b@.len(),
            i <= a@.len(),
            a@.take(i as int) == b@.take(i as int),
        decreases a.len() - i,
    {
        if a[i] != b[i] {
            return false;
        }
        assert(a@.take(i + 1) =~= a@.take(i as int).push(a@[i as int]));
        assert(b@.take(i + 1) =~= b@.take(i as int).push(b@[i as int]));
        i += 1;
    }
    assert(a@.take(i as int) =~= a@);
    assert(b@.take(i as int) =~= b@);
    true
}

/// Whether two strings hold the same characters.
pub fn same_text(a: &str, b: &str) -> (same: bool)
    ensures
        same == (a@ == b@),
{
    broadcast use vstd::utf8::encode_utf8_decode_utf8;

    let same = same_bytes(a.as_bytes(), b.as_bytes());
    proof {
        if same {
            assert(decode_utf8(encode_utf8(a@)) == decode_utf8(encode_utf8(b@)));
        }
    }
    same
}

/// A run of `n` spaces.
pub open spec fn spaces(n: nat) -> Seq<char> {
    Seq::new(n, |i: int| ' ')
}

/// Whether the text is made of spaces only. The empty text is.
pub fn is_blank(s: &str) -> (blank: bool)
    ensures
        blank == (s@ == spaces(s@.len())),
{
    broadcast use vstd::utf8::encode_utf8_decode_utf8;

    let bytes = s.as_bytes();
    let mut i: usize = 0;
    while i < bytes.len()
        invariant
            bytes@ == encode_utf8(s@),
            i <= bytes@.len(),
            forall|j: int| 0 <= j < i ==> bytes@[j] == 0x20u8,
        decreases bytes.len() - i,
    {
        if bytes[i] != 0x20u8 {
            proof {
                if s@ == spaces(s@.len()) {
                    vstd::utf8::is_ascii_chars_encode_utf8(s@);
                    assert(s@[i as int] == ' ');
                }
            }
            return false;
        }
        i += 1;
    }
    proof {
        let n = bytes@.len();
        vstd::utf8::is_ascii_chars_encode_utf8(spaces(n));
        assert(encode_utf8(spaces(n)) =~= bytes@);
        assert(decode_utf8(encode_utf8(spaces(n))) == decode_utf8(encode_utf8(s@)));
    }
    true
}

/// Encoding distributes over concatenation.
pub proof fn lemma_encode_concat(a: Seq<char>, b: Seq<char>)
    ensures
        encode_utf8(a + b) == encode_utf8(a) + encode_utf8(b),
    decreases a.len(),
{
    if a.len() == 0 {
        assert(a + b =~= b);
        assert(encode_utf8(a) + encode_utf8(b) =~= encode_utf8(b));
    } else {
        lemma_encode_concat(a.drop_first(), b);
        assert((a + b).drop_first() =~= a.drop_first() + b);
        assert(encode_utf8(a + b) =~= encode_utf8(a) + encode_utf8(b));
    }
}

/// A run of `n` NUL characters.
pub open spec fn nuls(n: nat) -> Seq<char> {
    Seq::new(n, |i: int| '\0')
}

/// Text that is encoded and filled up with zero bytes decodes to the text
/// followed by one NUL character for each byte of filling.
pub proof fn lemma_padded_text(text: Seq<char>, len: nat)
    requires
        encode_utf8(text).len() <= len,
    ensures
        valid_utf8(padded(encode_utf8(text), len)),
        decode_utf8(padded(encode_utf8(text), len)) == text + nuls(
            (len - encode_utf8(text).len()) as nat,
        ),
{
    broadcast use vstd::utf8::encode_utf8_valid_utf8, vstd::utf8::encode_utf8_decode_utf8;

    let fill = (len - encode_utf8(text).len()) as nat;
    let zeros = Seq::new(fill, |i: int| 0u8);
    vstd::utf8::is_ascii_chars_encode_utf8(nuls(fill));
    assert(encode_utf8(nuls(fill)) =~= zeros);
    lemma_encode_concat(text, nuls(fill));
    assert(padded(encode_utf8(text), len) =~= encode_utf8(text) + zeros);
}

} // verus!
