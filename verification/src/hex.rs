//! Lower-case hexadecimal, as the `base16ct` crate writes and reads it.

use vstd::prelude::*;

verus! {

/// The ASCII code of the digit for `n`, a number below 16: `0` to `9`, then
/// `a` to `f`.
pub open spec fn spec_hex_digit(n: int) -> u8 {
    if n < 10 {
        (48 + n) as u8
    } else {
        (87 + n) as u8
    }
}

/// Whether `c` is the ASCII code of `0` to `9` or of `a` to `f`.
pub open spec fn spec_is_hex(c: u8) -> bool {
    (48 <= c && c <= 57) || (97 <= c && c <= 102)
}

/// The number that the digit with ASCII code `c` stands for.
pub open spec fn spec_hex_value(c: u8) -> int {
    if c <= 57 {
        c - 48
    } else {
        c - 87
    }
}

/// Two digits for every byte, the high half first.
pub open spec fn spec_encode(bytes: Seq<u8>) -> Seq<u8> {
    Seq::new(
        2 * bytes.len(),
        |i: int|
            if i % 2 == 0 {
                spec_hex_digit(bytes[i / 2] as int / 16)
            } else {
                spec_hex_digit(bytes[i / 2] as int % 16)
            },
    )
}

/// Whether `text` is an even number of lower-case hex digits.
pub open spec fn spec_decodes(text: Seq<u8>) -> bool {
    text.len() % 2 == 0 && forall|i: int| 0 <= i < text.len() ==> spec_is_hex(#[trigger] text[i])
}

/// One byte for every two digits.
pub open spec fn spec_decode(text: Seq<u8>) -> Seq<u8> {
    Seq::new(
        text.len() / 2,
        |i: int| (spec_hex_value(text[2 * i]) * 16 + spec_hex_value(text[2 * i + 1])) as u8,
    )
}

/// Whether `c` is one of `0` to `9` or `a` to `f`.
pub open spec fn spec_is_hex_char(c: char) -> bool {
    ('0' <= c && c <= '9') || ('a' <= c && c <= 'f')
}

/// Whether `text` is a 256-bit digest in lower-case hex: 64 digits.
pub open spec fn spec_is_digest_text(text: Seq<char>) -> bool {
    text.len() == 64 && forall|i: int| 0 <= i < text.len() ==> spec_is_hex_char(#[trigger] text[i])
}

/// Tells whether `text` is a 256-bit digest in lower-case hex.
pub fn is_digest_text(text: &str) -> (r: bool)
    ensures
        r == spec_is_digest_text(text@),
{
    let mut count: usize = 0;
    for c in it: text.chars()
        invariant
            it.seq() == text@,
            count == it.index(),
            count <= 64,
            forall|i: int| 0 <= i < it.index() ==> spec_is_hex_char(#[trigger] text@[i]),
    {
        if count == 64 {
            return false;
        }
        if !(('0' <= c && c <= '9') || ('a' <= c && c <= 'f')) {
            assert(!spec_is_hex_char(text@[it.index() as int]));
            return false;
        }
        count += 1;
    }
    count == 64
}

/// Calls `base16ct::lower::encode_string` and takes the bytes of the string
/// it returns: two lower-case digits for every byte, the high half first.
/// Lengths that the crate would panic on are left out.
#[verifier::external_body]
pub(crate) fn encode_string(bytes: &[u8]) -> (r: Vec<u8>)
    requires
        2 * bytes@.len() <= usize::MAX,
    ensures
        r@ == spec_encode(bytes@),
{
    base16ct::lower::encode_string(bytes).into_bytes()
}

/// Calls `base16ct::lower::decode_vec`: it succeeds exactly on an even number
/// of digits `0` to `9` and `a` to `f`, and then gives one byte for every two.
#[verifier::external_body]
pub(crate) fn decode_vec(text: &[u8]) -> (r: Option<Vec<u8>>)
    ensures
        r is Some <==> spec_decodes(text@),
        r is Some ==> r->Some_0@ == spec_decode(text@),
{
    base16ct::lower::decode_vec(text).ok()
}

/// What is read from written bytes is those bytes.
pub proof fn lemma_decode_encode(bytes: Seq<u8>)
    ensures
        spec_decodes(spec_encode(bytes)),
        spec_decode(spec_encode(bytes)) == bytes,
{
    let text = spec_encode(bytes);
    assert forall|i: int| 0 <= i < text.len() implies spec_is_hex(#[trigger] text[i]) by {
        let b = bytes[i / 2];
        assert(0 <= b as int / 16 < 16);
        assert(0 <= b as int % 16 < 16);
    }
    assert forall|i: int| 0 <= i < bytes.len() implies spec_decode(text)[i] == bytes[i] by {
        let b = bytes[i];
        assert((2 * i) % 2 == 0);
        assert((2 * i + 1) % 2 == 1);
        assert((2 * i) / 2 == i);
        assert((2 * i + 1) / 2 == i);
        assert(0 <= b as int / 16 < 16);
        assert(0 <= b as int % 16 < 16);
        assert(spec_hex_value(text[2 * i]) == b as int / 16);
        assert(spec_hex_value(text[2 * i + 1]) == b as int % 16);
        assert((b as int / 16) * 16 + b as int % 16 == b as int);
    }
    assert(spec_decode(text) =~= bytes);
}

/// What is written from read digits is those digits.
pub proof fn lemma_encode_decode(text: Seq<u8>)
    requires
        spec_decodes(text),
    ensures
        spec_encode(spec_decode(text)) == text,
{
    let bytes = spec_decode(text);
    assert(2 * bytes.len() == text.len());
    assert forall|i: int| 0 <= i < text.len() implies spec_encode(bytes)[i] == text[i] by {
        let k = i / 2;
        let hi = spec_hex_value(text[2 * k]);
        let lo = spec_hex_value(text[2 * k + 1]);
        assert(spec_is_hex(text[2 * k]));
        assert(spec_is_hex(text[2 * k + 1]));
        assert(0 <= hi < 16 && 0 <= lo < 16);
        assert(bytes[k] as int == hi * 16 + lo);
        assert((hi * 16 + lo) / 16 == hi);
        assert((hi * 16 + lo) % 16 == lo);
        if i % 2 == 0 {
            assert(i == 2 * k);
        } else {
            assert(i == 2 * k + 1);
        }
    }
    assert(spec_encode(bytes) =~= text);
}

} // verus!
