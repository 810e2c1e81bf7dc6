//! Byte-to-text conversions that the library takes from outside code:
//! standard Base64 (from the `base64` crate) and lossy UTF-8 decoding (from std).
use vstd::prelude::*;
use vstd::utf8::{decode_utf8, valid_utf8};

verus! {

/// The character of the standard Base64 alphabet (RFC 4648) for the six-bit
/// value `v`: `A`-`Z`, `a`-`z`, `0`-`9`, `+`, `/`.
pub open spec fn base64_char(v: int) -> char {
    if v < 26 {
        ('A' as int + v) as char
    } else if v < 52 {
        ('a' as int + (v - 26)) as char
    } else if v < 62 {
        ('0' as int + (v - 52)) as char
    } else if v == 62 {
        '+'
    } else {
        '/'
    }
}

/// The text that standard Base64 (RFC 4648 alphabet, with `=` padding) gives
/// for `input`: each group of three bytes becomes four characters of six bits
/// each; a final group of one or two bytes is padded with `=` to four.
pub open spec fn base64_standard(input: Seq<u8>) -> Seq<char>
    decreases input.len(),
{
    if input.len() == 0 {
        Seq::empty()
    } else if input.len() == 1 {
        let a = input[0] as int;
        seq![base64_char(a / 4), base64_char((a % 4) * 16), '=', '=']
    } else if input.len() == 2 {
        let a = input[0] as int;
        let b = input[1] as int;
        seq![base64_char(a / 4), base64_char((a % 4) * 16 + b / 16), base64_char((b % 16) * 4), '=']
    } else {
        let a = input[0] as int;
        let b = input[1] as int;
        let c = input[2] as int;
        seq![
            base64_char(a / 4),
            base64_char((a % 4) * 16 + b / 16),
            base64_char((b % 16) * 4 + c / 64),
            base64_char(c % 64),
        ] + base64_standard(input.skip(3))
    }
}

/// The Base64 text of `n` bytes has `(n + 2) / 3 * 4` characters.
pub proof fn lemma_base64_len(input: Seq<u8>)
    ensures
        base64_standard(input).len() == (input.len() + 2) / 3 * 4,
    decreases input.len(),
{
    if input.len() >= 3 {
        lemma_base64_len(input.skip(3));
    }
}

/// The text that lossy UTF-8 decoding gives for `bytes`: each invalid sequence
/// becomes U+FFFD.
pub uninterp spec fn utf8_lossy(bytes: Seq<u8>) -> Seq<char>;

/// The text that lossy UTF-8 decoding gives for `bytes`, as far as it is known:
/// valid UTF-8 decodes to exactly its characters; other bytes give
/// [`utf8_lossy`].
pub open spec fn lossy_text(bytes: Seq<u8>) -> Seq<char> {
    if valid_utf8(bytes) {
        decode_utf8(bytes)
    } else {
        utf8_lossy(bytes)
    }
}

/// Inputs short enough that the length of their Base64 text fits in a `usize`.
pub open spec fn base64_fits(len: nat) -> bool {
    (len + 2) / 3 * 4 <= usize::MAX
}

/// Encodes `input` with `base64::engine::general_purpose::STANDARD`
/// (`Engine::encode`). Trusted: the result is the standard Base64 text of the
/// input bytes. The crate panics when the output length overflows `usize`,
/// which the precondition excludes.
#[verifier::external_body]
pub(crate) fn base64_encode(input: &[u8]) -> (r: String)
    requires
        base64_fits(input@.len()),
    ensures
        r@ == base64_standard(input@),
{
    base64::Engine::encode(&base64::engine::general_purpose::STANDARD, input)
}

/// Decodes `bytes` with `String::from_utf8_lossy`. Trusted: the result is
/// the lossy decoding of the bytes, and valid UTF-8 is decoded unchanged, as the
/// std documentation states.
#[verifier::external_body]
pub(crate) fn decode_lossy(bytes: &[u8]) -> (r: String)
    ensures
        r@ == utf8_lossy(bytes@),
        r@ == lossy_text(bytes@),
{
    String::from_utf8_lossy(bytes).into_owned()
}

} // verus!
