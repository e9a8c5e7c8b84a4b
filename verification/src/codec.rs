//! Encode/decode primitives: the input-encoding choice, exact specifications
//! of the hexadecimal and base 64 text forms of a byte sequence, and the
//! decoding of operator-typed payload text into bytes.

use vstd::prelude::*;
use vstd::string::StrSliceExecFns;
use vstd::string::StringSliceAdditionalSpecFns;
use vstd::utf8::decode_utf8;
use vstd::utf8::encode_utf8;
use vstd::utf8::valid_utf8;

verus! {

/// The encoding under which operator-typed payload text is interpreted
/// before it is sent.
#[derive(Copy, Clone, PartialEq, Eq, Structural, Debug)]
pub enum Setting {
    Utf8,
    Hex,
    Base64,
}

impl Setting {
    /// The human-readable name of the encoding, as shown in terminal messages.
    pub fn label(&self) -> (r: &'static str)
        ensures
            *self is Utf8 ==> r@ == "utf-8"@,
            *self is Hex ==> r@ == "hex"@,
            *self is Base64 ==> r@ == "base 64"@,
    {
        match self {
            Setting::Utf8 => "utf-8",
            Setting::Hex => "hex",
            Setting::Base64 => "base 64",
        }
    }
}

/// The lowercase hexadecimal digit for a value in `0..16`.
pub open spec fn hex_digit_char(v: int) -> char {
    if v == 0 {
        '0'
    } else if v == 1 {
        '1'
    } else if v == 2 {
        '2'
    } else if v == 3 {
        '3'
    } else if v == 4 {
        '4'
    } else if v == 5 {
        '5'
    } else if v == 6 {
        '6'
    } else if v == 7 {
        '7'
    } else if v == 8 {
        '8'
    } else if v == 9 {
        '9'
    } else if v == 10 {
        'a'
    } else if v == 11 {
        'b'
    } else if v == 12 {
        'c'
    } else if v == 13 {
        'd'
    } else if v == 14 {
        'e'
    } else if v == 15 {
        'f'
    } else {
        '0'
    }
}

/// The hexadecimal rendering of a byte sequence: two lowercase digits per
/// byte, high nibble first.
pub open spec fn hex_of(b: Seq<u8>) -> Seq<char>
    decreases b.len(),
{
    if b.len() == 0 {
        Seq::<char>::empty()
    } else {
        seq![hex_digit_char(b[0] as int / 16), hex_digit_char(b[0] as int % 16)] + hex_of(
            b.skip(1),
        )
    }
}

/// The value of a hexadecimal digit character (either case), or -1 for any
/// other character.
pub open spec fn hex_char_val(c: char) -> int {
    if c == '0' {
        0
    } else if c == '1' {
        1
    } else if c == '2' {
        2
    } else if c == '3' {
        3
    } else if c == '4' {
        4
    } else if c == '5' {
        5
    } else if c == '6' {
        6
    } else if c == '7' {
        7
    } else if c == '8' {
        8
    } else if c == '9' {
        9
    } else if c == 'a' || c == 'A' {
        10
    } else if c == 'b' || c == 'B' {
        11
    } else if c == 'c' || c == 'C' {
        12
    } else if c == 'd' || c == 'D' {
        13
    } else if c == 'e' || c == 'E' {
        14
    } else if c == 'f' || c == 'F' {
        15
    } else {
        -1
    }
}

pub open spec fn is_hex_char(c: char) -> bool {
    hex_char_val(c) >= 0
}

/// A string is a well-formed hexadecimal encoding when its length is even
/// and every character is a hexadecimal digit.
pub open spec fn is_hex_str(s: Seq<char>) -> bool {
    s.len() % 2 == 0 && forall|i: int| 0 <= i < s.len() ==> is_hex_char(#[trigger] s[i])
}

/// The bytes denoted by a hexadecimal string, one byte per digit pair.
pub open spec fn hex_bytes_of(s: Seq<char>) -> Seq<u8>
    decreases s.len(),
{
    if s.len() < 2 {
        Seq::<u8>::empty()
    } else {
        seq![(hex_char_val(s[0]) * 16 + hex_char_val(s[1])) as u8] + hex_bytes_of(s.skip(2))
    }
}

/// The standard base 64 alphabet, indexed by sextet value.
pub open spec fn b64_alphabet() -> Seq<char> {
    seq![
        'A', 'B', 'C', 'D', 'E', 'F', 'G', 'H', 'I', 'J', 'K', 'L', 'M', 'N', 'O', 'P', 'Q', 'R',
        'S', 'T', 'U', 'V', 'W', 'X', 'Y', 'Z', 'a', 'b', 'c', 'd', 'e', 'f', 'g', 'h', 'i', 'j',
        'k', 'l', 'm', 'n', 'o', 'p', 'q', 'r', 's', 't', 'u', 'v', 'w', 'x', 'y', 'z', '0', '1',
        '2', '3', '4', '5', '6', '7', '8', '9', '+', '/',
    ]
}

pub open spec fn b64_char(v: int) -> char {
    b64_alphabet()[v]
}

/// The standard padded base 64 rendering of a byte sequence: each group of
/// three bytes becomes four alphabet characters; a trailing group of one or
/// two bytes is padded with `=`.
pub open spec fn b64_of(b: Seq<u8>) -> Seq<char>
    decreases b.len(),
{
    if b.len() == 0 {
        Seq::<char>::empty()
    } else if b.len() == 1 {
        let x = b[0] as int;
        seq![b64_char(x / 4), b64_char((x % 4) * 16), '=', '=']
    } else if b.len() == 2 {
        let x = b[0] as int;
        let y = b[1] as int;
        seq![b64_char(x / 4), b64_char((x % 4) * 16 + y / 16), b64_char((y % 16) * 4), '=']
    } else {
        let x = b[0] as int;
        let y = b[1] as int;
        let z = b[2] as int;
        seq![
            b64_char(x / 4),
            b64_char((x % 4) * 16 + y / 16),
            b64_char((y % 16) * 4 + z / 64),
            b64_char(z % 64),
        ] + b64_of(b.skip(3))
    }
}

/// What base 64 decoding returns for a given text: `Some` of the decoded
/// bytes where the text is accepted, `None` where it is rejected. The result
/// depends on the text alone; its exact extent is left to the codec, except
/// for what the trusted contract below states of it.
pub uninterp spec fn b64_bytes_of(s: Seq<char>) -> Option<Seq<u8>>;

/// Relies on hex::encode: every input byte becomes two lowercase
/// hexadecimal digits, high nibble first.
#[verifier::external_body]
pub(crate) fn hex_encode_text(b: &[u8]) -> (r: String)
    ensures
        r@ == hex_of(b@),
{
    hex::encode(b)
}

/// Relies on hex::decode: it succeeds exactly on even-length strings of
/// hexadecimal digits (either case) and returns the bytes the digit pairs
/// denote.
#[verifier::external_body]
pub(crate) fn hex_decode_text(s: &str) -> (r: Option<Vec<u8>>)
    ensures
        r is Some <==> is_hex_str(s@),
        r matches Some(v) ==> v@ == hex_bytes_of(s@),
{
    hex::decode(s).ok()
}

/// Relies on base64::encode: the standard alphabet with `=` padding.
#[verifier::external_body]
pub(crate) fn b64_encode_text(b: &[u8]) -> (r: String)
    ensures
        r@ == b64_of(b@),
{
    base64::encode(b)
}

/// Relies on base64::decode: a deterministic function of the input text
/// that accepts, among others, every padded standard-alphabet encoding, on
/// which it returns the bytes that were encoded.
#[verifier::external_body]
pub(crate) fn b64_decode_text(s: &str) -> (r: Option<Vec<u8>>)
    ensures
        r is Some <==> b64_bytes_of(s@) is Some,
        r matches Some(v) ==> Some(v@) == b64_bytes_of(s@),
        forall|orig: Seq<u8>| s@ == b64_of(orig) ==> r is Some && (r->Some_0)@ == orig,
{
    base64::decode(s).ok()
}

/// Relies on core::str::from_utf8: it succeeds exactly on valid UTF-8 and
/// yields the characters those bytes encode.
#[verifier::external_body]
pub(crate) fn utf8_decode_text(b: &[u8]) -> (r: Option<String>)
    ensures
        r is Some <==> valid_utf8(b@),
        r matches Some(s) ==> s@ == decode_utf8(b@),
{
    match core::str::from_utf8(b) {
        Ok(s) => Some(s.to_string()),
        Err(_) => None,
    }
}

/// The payload bytes that a typed text denotes under an input encoding:
/// its UTF-8 bytes as they stand, the bytes of its hexadecimal digit pairs,
/// or the bytes of its base 64 form; `None` where the text is not a
/// well-formed encoding.
pub open spec fn decoded_payload(t: Seq<char>, setting: Setting) -> Option<Seq<u8>> {
    match setting {
        Setting::Utf8 => Some(encode_utf8(t)),
        Setting::Hex => if is_hex_str(t) {
            Some(hex_bytes_of(t))
        } else {
            None
        },
        Setting::Base64 => b64_bytes_of(t),
    }
}

/// Decode one line of typed payload text into the bytes to transmit, per
/// the current input encoding. UTF-8 always succeeds; hexadecimal succeeds
/// exactly on even-length digit strings; base 64 succeeds on every padded
/// standard encoding (and on whatever else the codec accepts).
pub fn encode_input(text: &str, setting: Setting) -> (r: Option<Vec<u8>>)
    ensures
        r is Some <==> decoded_payload(text@, setting) is Some,
        r matches Some(v) ==> Some(v@) == decoded_payload(text@, setting),
        setting is Base64 ==> forall|orig: Seq<u8>|
            text@ == b64_of(orig) ==> r is Some && (r->Some_0)@ == orig,
{
    match setting {
        Setting::Utf8 => Some(text.as_bytes_vec()),
        Setting::Hex => hex_decode_text(text),
        Setting::Base64 => b64_decode_text(text),
    }
}

proof fn lemma_hex_digit_val(v: int)
    requires
        0 <= v < 16,
    ensures
        hex_char_val(hex_digit_char(v)) == v,
        is_hex_char(hex_digit_char(v)),
{
}

/// Round-trip law: the hexadecimal rendering of any byte sequence is a
/// well-formed hexadecimal string, and decoding it gives back the bytes.
pub proof fn lemma_hex_round_trip(b: Seq<u8>)
    ensures
        is_hex_str(hex_of(b)),
        hex_bytes_of(hex_of(b)) == b,
    decreases b.len(),
{
    if b.len() == 0 {
        assert(hex_bytes_of(hex_of(b)) =~= b);
    } else {
        let hi = b[0] as int / 16;
        let lo = b[0] as int % 16;
        let d1 = hex_digit_char(hi);
        let d2 = hex_digit_char(lo);
        lemma_hex_digit_val(hi);
        lemma_hex_digit_val(lo);
        lemma_hex_round_trip(b.skip(1));
        let rest = hex_of(b.skip(1));
        assert(hex_of(b) == seq![d1, d2] + rest);
        assert forall|i: int| 0 <= i < hex_of(b).len() implies is_hex_char(
            #[trigger] hex_of(b)[i],
        ) by {
            if i >= 2 {
                assert(hex_of(b)[i] == rest[i - 2]);
            }
        }
        assert(hex_of(b).skip(2) =~= rest);
        vstd::arithmetic::div_mod::lemma_fundamental_div_mod(b[0] as int, 16);
        assert(hex_char_val(d1) * 16 + hex_char_val(d2) == b[0] as int);
        assert(hex_bytes_of(hex_of(b)) =~= b);
    }
}

/// Round-trip law: hex-decoding the hexadecimal encoding of any byte
/// sequence gives back exactly those bytes.
pub fn hex_round_trip(b: &[u8]) -> (r: Vec<u8>)
    ensures
        r@ == b@,
{
    proof {
        lemma_hex_round_trip(b@);
    }
    let s = hex_encode_text(b);
    hex_decode_text(&s).unwrap()
}

/// Round-trip law: base64-decoding the base 64 encoding of any byte
/// sequence gives back exactly those bytes.
pub fn b64_round_trip(b: &[u8]) -> (r: Vec<u8>)
    ensures
        r@ == b@,
{
    let s = b64_encode_text(b);
    let d = b64_decode_text(&s);
    assert(s@ == b64_of(b@));
    d.unwrap()
}

} // verus!
