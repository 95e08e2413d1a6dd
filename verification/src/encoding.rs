//! Byte encodings met on the wire: header text, Base64, UTF-8 and hex.
use vstd::prelude::*;
use vstd::utf8::{decode_utf8, valid_utf8};

verus! {

// ---------------------------------------------------------------------------
// Header values
// ---------------------------------------------------------------------------

/// A byte that a header value may show as text: visible ASCII or a tab.
pub open spec fn is_visible_header_byte(b: u8) -> bool {
    (32 <= b && b < 127) || b == 9
}

/// Every byte is visible ASCII or a tab: a header value that reads as text
/// (`HeaderValue::to_str` succeeds exactly on these).
pub open spec fn is_header_text(bytes: Seq<u8>) -> bool {
    forall|i: int| 0 <= i < bytes.len() ==> is_visible_header_byte(#[trigger] bytes[i])
}

/// Whether a header value reads as text.
pub fn header_is_text(bytes: &[u8]) -> (res: bool)
    ensures
        res == is_header_text(bytes@),
{
    let mut i: usize = 0;
    while i < bytes.len()
        invariant
            i <= bytes@.len(),
            forall|j: int| 0 <= j < i ==> is_visible_header_byte(#[trigger] bytes@[j]),
        decreases bytes.len() - i,
    {
        let b = bytes[i];
        if !((32 <= b && b < 127) || b == 9) {
            return false;
        }
        i = i + 1;
    }
    true
}

// ---------------------------------------------------------------------------
// Base64
// ---------------------------------------------------------------------------

/// Bytes read one for one as characters.
pub open spec fn bytes_as_chars(bytes: Seq<u8>) -> Seq<char> {
    bytes.map_values(|b: u8| b as char)
}

/// `input` is the standard Base64 encoding (with padding) of `v`.
pub open spec fn is_base64_of(input: Seq<u8>, v: Seq<u8>) -> bool {
    base64_encoding(v) == bytes_as_chars(input)
}

/// What decoding standard Base64 with padding gives: the bytes whose
/// encoding the input is, if it is one (there is at most one, see
/// `lemma_base64_encoding_injective`).
pub open spec fn base64_decoded(input: Seq<u8>) -> Option<Seq<u8>> {
    if exists|v: Seq<u8>| is_base64_of(input, v) {
        Some(choose|v: Seq<u8>| is_base64_of(input, v))
    } else {
        None
    }
}

/// An input that encodes `v` decodes to `v`.
pub proof fn lemma_base64_decodes_encoded(input: Seq<u8>, v: Seq<u8>)
    requires
        is_base64_of(input, v),
    ensures
        base64_decoded(input) == Some(v),
{
    let c = choose|w: Seq<u8>| is_base64_of(input, w);
    lemma_base64_encoding_injective(c, v);
}

/// The text of the error that `base64::decode` reports for an input it refuses.
pub uninterp spec fn base64_decode_error_text(input: Seq<u8>) -> Seq<char>;

/// Calls `base64::decode` (the STANDARD engine: standard alphabet, canonical
/// padding required, no trailing bits), which accepts exactly the standard
/// Base64 encodings and returns the bytes encoded; the display text of its
/// error is named `base64_decode_error_text`.
#[verifier::external_body]
fn base64_decode_call(input: &[u8]) -> (res: Result<Vec<u8>, String>)
    ensures
        match res {
            Ok(v) => is_base64_of(input@, v@),
            Err(m) => base64_decoded(input@) is None && m@ == base64_decode_error_text(input@),
        },
{
    #[allow(deprecated)]
    match base64::decode(input) {
        Ok(v) => Ok(v),
        Err(e) => Err(e.to_string()),
    }
}

/// Decodes standard Base64 with padding, reporting the decoder's message on
/// refusal.
pub(crate) fn base64_decode(input: &[u8]) -> (res: Result<Vec<u8>, String>)
    ensures
        match res {
            Ok(v) => base64_decoded(input@) == Some(v@),
            Err(m) => base64_decoded(input@) is None && m@ == base64_decode_error_text(input@),
        },
{
    let res = base64_decode_call(input);
    proof {
        if let Ok(v) = &res {
            lemma_base64_decodes_encoded(input@, v@);
        }
    }
    res
}

/// The character of a 6-bit value in the standard Base64 alphabet.
pub open spec fn base64_char(v: nat) -> char {
    if v < 26 {
        ((v + 'A' as int) as u32) as char
    } else if v < 52 {
        ((v - 26 + 'a' as int) as u32) as char
    } else if v < 62 {
        ((v - 52 + '0' as int) as u32) as char
    } else if v == 62 {
        '+'
    } else {
        '/'
    }
}

/// Standard Base64 with `=` padding (RFC 4648, section 4): each group of
/// three bytes becomes four characters; a last group of one or two bytes is
/// padded.
pub open spec fn base64_encoding(d: Seq<u8>) -> Seq<char>
    decreases d.len(),
{
    if d.len() == 0 {
        Seq::empty()
    } else if d.len() == 1 {
        let a = d[0] as nat;
        seq![base64_char(a / 4), base64_char((a % 4) * 16), '=', '=']
    } else if d.len() == 2 {
        let a = d[0] as nat;
        let b = d[1] as nat;
        seq![base64_char(a / 4), base64_char((a % 4) * 16 + b / 16), base64_char((b % 16) * 4), '=']
    } else {
        let a = d[0] as nat;
        let b = d[1] as nat;
        let c = d[2] as nat;
        seq![
            base64_char(a / 4),
            base64_char((a % 4) * 16 + b / 16),
            base64_char((b % 16) * 4 + c / 64),
            base64_char(c % 64),
        ] + base64_encoding(d.skip(3))
    }
}

/// A 6-bit value's character is never the padding `=`, and the character
/// gives the value back.
proof fn lemma_base64_char(x: nat, y: nat)
    requires
        x < 64,
        y < 64,
    ensures
        base64_char(x) != '=',
        base64_char(x) == base64_char(y) ==> x == y,
{
    let cx = base64_char(x);
    let cy = base64_char(y);
    if x < 26 {
        assert(cx as int == x + 65);
    } else if x < 52 {
        assert(cx as int == x - 26 + 97);
    } else if x < 62 {
        assert(cx as int == x - 52 + 48);
    }
    if y < 26 {
        assert(cy as int == y + 65);
    } else if y < 52 {
        assert(cy as int == y - 26 + 97);
    } else if y < 62 {
        assert(cy as int == y - 52 + 48);
    }
}

/// The 6-bit groups of three bytes give the bytes back.
proof fn lemma_groups_give_bytes(a1: nat, b1: nat, c1: nat, a2: nat, b2: nat, c2: nat)
    requires
        a1 < 256, b1 < 256, c1 < 256, a2 < 256, b2 < 256, c2 < 256,
        a1 / 4 == a2 / 4,
        (a1 % 4) * 16 + b1 / 16 == (a2 % 4) * 16 + b2 / 16,
        (b1 % 16) * 4 + c1 / 64 == (b2 % 16) * 4 + c2 / 64,
        c1 % 64 == c2 % 64,
    ensures
        a1 == a2, b1 == b2, c1 == c2,
{
}

/// Two byte strings with the same Base64 encoding are equal.
pub proof fn lemma_base64_encoding_injective(v1: Seq<u8>, v2: Seq<u8>)
    requires
        base64_encoding(v1) == base64_encoding(v2),
    ensures
        v1 == v2,
    decreases v1.len(),
{
    let e = base64_encoding(v1);
    if v1.len() == 0 || v2.len() == 0 {
        if v1.len() != 0 || v2.len() != 0 {
            assert(base64_encoding(v1).len() != base64_encoding(v2).len());
        }
        assert(v1 =~= v2);
        return;
    }
    let a1 = v1[0] as nat;
    let a2 = v2[0] as nat;
    let b1 = if v1.len() > 1 { v1[1] as nat } else { 0 };
    let b2 = if v2.len() > 1 { v2[1] as nat } else { 0 };
    let c1 = if v1.len() > 2 { v1[2] as nat } else { 0 };
    let c2 = if v2.len() > 2 { v2[2] as nat } else { 0 };
    lemma_base64_char(a1 / 4, a2 / 4);
    lemma_base64_char((a1 % 4) * 16 + b1 / 16, (a2 % 4) * 16 + b2 / 16);
    lemma_base64_char((b1 % 16) * 4 + c1 / 64, (b2 % 16) * 4 + c2 / 64);
    lemma_base64_char(c1 % 64, c2 % 64);
    lemma_base64_char((a1 % 4) * 16, (a2 % 4) * 16);
    lemma_base64_char((b1 % 16) * 4, (b2 % 16) * 4);
    lemma_base64_char((a1 % 4) * 16, (a2 % 4) * 16 + b2 / 16);
    lemma_base64_char((a1 % 4) * 16 + b1 / 16, (a2 % 4) * 16);
    lemma_base64_char((b1 % 16) * 4, (b2 % 16) * 4 + c2 / 64);
    lemma_base64_char((b1 % 16) * 4 + c1 / 64, (b2 % 16) * 4);
    // The padding shows how many bytes the first group holds.
    let k1: int = if v1.len() >= 3 { 3 } else { v1.len() as int };
    let k2: int = if v2.len() >= 3 { 3 } else { v2.len() as int };
    assert(e[2] == base64_encoding(v2)[2]);
    assert(e[3] == base64_encoding(v2)[3]);
    assert(k1 == k2);
    let f = base64_encoding(v2);
    assert(e[0] == base64_char(a1 / 4) && f[0] == base64_char(a2 / 4));
    assert(e[1] == base64_char((a1 % 4) * 16 + b1 / 16));
    assert(f[1] == base64_char((a2 % 4) * 16 + b2 / 16));
    if k1 >= 2 {
        assert(e[2] == base64_char((b1 % 16) * 4 + c1 / 64));
        assert(f[2] == base64_char((b2 % 16) * 4 + c2 / 64));
    }
    if k1 == 3 {
        assert(e[3] == base64_char(c1 % 64) && f[3] == base64_char(c2 % 64));
    }
    lemma_groups_give_bytes(a1, b1, c1, a2, b2, c2);
    if v1.len() >= 3 {
        let r1 = base64_encoding(v1.skip(3));
        let r2 = base64_encoding(v2.skip(3));
        assert(e.skip(4) =~= r1);
        assert(base64_encoding(v2).skip(4) =~= r2);
        lemma_base64_encoding_injective(v1.skip(3), v2.skip(3));
        assert(v1 =~= v2.subrange(0, 3) + v2.skip(3));
        assert(v2 =~= v2.subrange(0, 3) + v2.skip(3));
    } else {
        assert(v1 =~= v2);
    }
}

/// Calls `base64::encode` (standard alphabet, with padding). It panics only
/// when the output length overflows `usize`, which the `requires` rules out.
#[verifier::external_body]
pub(crate) fn base64_encode(data: &[u8]) -> (res: String)
    requires
        data@.len() <= isize::MAX,
    ensures
        res@ == base64_encoding(data@),
{
    #[allow(deprecated)]
    base64::encode(data)
}

// ---------------------------------------------------------------------------
// UTF-8
// ---------------------------------------------------------------------------

/// The display text of the error that `String::from_utf8` reports for bytes
/// that are not UTF-8.
pub uninterp spec fn utf8_error_text(bytes: Seq<u8>) -> Seq<char>;

/// Calls `String::from_utf8`: it accepts exactly the valid UTF-8 byte strings
/// and decodes them; the display text of its error is named `utf8_error_text`.
#[verifier::external_body]
pub(crate) fn string_from_utf8(bytes: Vec<u8>) -> (res: Result<String, String>)
    ensures
        match res {
            Ok(s) => valid_utf8(bytes@) && s@ == decode_utf8(bytes@),
            Err(m) => !valid_utf8(bytes@) && m@ == utf8_error_text(bytes@),
        },
{
    match String::from_utf8(bytes) {
        Ok(s) => Ok(s),
        Err(e) => Err(e.to_string()),
    }
}

// ---------------------------------------------------------------------------
// Hex
// ---------------------------------------------------------------------------

/// The lower-case hex digit of a value below 16.
pub open spec fn hex_digit(v: nat) -> char {
    if v < 10 {
        ((v + '0' as int) as u32) as char
    } else {
        ((v - 10 + 'a' as int) as u32) as char
    }
}

/// Lower-case hex, two digits per byte, high half first.
pub open spec fn lower_hex(d: Seq<u8>) -> Seq<char>
    decreases d.len(),
{
    if d.len() == 0 {
        Seq::empty()
    } else {
        seq![hex_digit(d[0] as nat / 16), hex_digit(d[0] as nat % 16)] + lower_hex(d.skip(1))
    }
}

/// Calls `hex::encode`, which writes each byte as two lower-case hex digits.
#[verifier::external_body]
fn hex_encode(data: &[u8]) -> (res: String)
    ensures
        res@ == lower_hex(data@),
{
    hex::encode(data)
}

/// `0x` followed by the lower-case hex of the bytes.
pub fn prefixed_hex(data: &[u8]) -> (res: String)
    ensures
        res@ == "0x"@ + lower_hex(data@),
{
    let mut res = String::from_str("0x");
    let h = hex_encode(data);
    res.append(h.as_str());
    res
}

} // verus!
