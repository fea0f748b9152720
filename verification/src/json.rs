//! JSON text framed by the library around strings that `serde_json` encodes,
//! and decimal numbers.

use crate::bytes::push_bytes;
use vstd::prelude::*;
use vstd::string::StringSliceAdditionalSpecFns;

verus! {

/// The lowercase hexadecimal digit of a nibble, as a byte.
pub open spec fn hex_byte(n: int) -> u8 {
    if n < 10 {
        (48 + n) as u8
    } else {
        (87 + n) as u8
    }
}

/// How `serde_json` writes one byte of a string's UTF-8 encoding: a quote and
/// a backslash escaped by a backslash; backspace, tab, line feed, form feed
/// and carriage return as `\b`, `\t`, `\n`, `\f`, `\r`; any other byte below
/// 0x20 as `\u00` and two lowercase hex digits; every other byte as it is.
pub open spec fn json_escape_byte(b: u8) -> Seq<u8> {
    if b == 34 {
        seq![92u8, 34u8]
    } else if b == 92 {
        seq![92u8, 92u8]
    } else if b == 8 {
        seq![92u8, 98u8]
    } else if b == 9 {
        seq![92u8, 116u8]
    } else if b == 10 {
        seq![92u8, 110u8]
    } else if b == 12 {
        seq![92u8, 102u8]
    } else if b == 13 {
        seq![92u8, 114u8]
    } else if b < 32 {
        seq![92u8, 117u8, 48u8, 48u8, hex_byte(b as int / 16), hex_byte(b as int % 16)]
    } else {
        seq![b]
    }
}

/// The escaped contents of a JSON string, byte by byte.
pub open spec fn json_escaped(bytes: Seq<u8>) -> Seq<u8>
    decreases bytes.len(),
{
    if bytes.len() == 0 {
        Seq::empty()
    } else {
        json_escaped(bytes.drop_last()) + json_escape_byte(bytes.last())
    }
}

/// The bytes `serde_json::to_vec` gives for a string: the escaped UTF-8
/// encoding of the string between double quotes.
pub open spec fn json_string(s: Seq<char>) -> Seq<u8> {
    seq![34u8] + json_escaped(vstd::utf8::encode_utf8(s)) + seq![34u8]
}

/// Calls `serde_json::to_vec` on a string slice. Trusted: the crate writes a
/// quote, each byte of the string escaped by its `ESCAPE` table and
/// `write_char_escape` (which `json_escape_byte` states), and a quote; it
/// writes into a `Vec`, which cannot fail, so the result is always present.
#[verifier::external_body]
fn json_string_bytes(s: &str) -> (res: Option<Vec<u8>>)
    ensures
        res is Some,
        res.unwrap()@ == json_string(s@),
{
    serde_json::to_vec(s).ok()
}

/// The bytes `serde_json::to_vec` gives for the `serde_json::Value` that
/// `serde_json::from_slice` reads from `value_json`, or `None` when the bytes
/// are not one JSON value. With the crate's default `Map` (a `BTreeMap`)
/// object keys come out in sorted order: the canonical encoding of the value.
pub uninterp spec fn canonical_json(value_json: Seq<u8>) -> Option<Seq<u8>>;

/// Calls `serde_json::from_slice::<serde_json::Value>` and then
/// `serde_json::to_vec` on the value read. Trusted: the result is what those
/// two calls give (named `canonical_json`), `None` when either refuses.
#[verifier::external_body]
pub(crate) fn canonical_json_bytes(value_json: &[u8]) -> (res: Option<Vec<u8>>)
    ensures
        match canonical_json(value_json@) {
            Some(c) => res is Some && res.unwrap()@ == c,
            None => res is None,
        },
{
    match serde_json::from_slice::<serde_json::Value>(value_json) {
        Ok(value) => serde_json::to_vec(&value).ok(),
        Err(_) => None,
    }
}

/// Appends the JSON text of the string `s`.
pub fn push_json_string(out: &mut Vec<u8>, s: &str)
    ensures
        final(out)@ == old(out)@ + json_string(s@),
{
    let bytes = json_string_bytes(s);
    match bytes {
        Some(v) => push_bytes(out, v.as_slice()),
        None => {},
    }
}

/// The decimal digits of `n`, without leading zeros.
pub open spec fn decimal_digits(n: nat) -> Seq<u8>
    decreases n,
{
    if n < 10 {
        seq![(48 + n) as u8]
    } else {
        decimal_digits(n / 10) + seq![(48 + n % 10) as u8]
    }
}

/// Appends the decimal digits of `n`.
pub fn push_decimal(out: &mut Vec<u8>, n: u64)
    ensures
        final(out)@ == old(out)@ + decimal_digits(n as nat),
    decreases n,
{
    if n >= 10 {
        push_decimal(out, n / 10);
    }
    out.push((48 + n % 10) as u8);
    proof {
        assert(final(out)@ =~= old(out)@ + decimal_digits(n as nat));
    }
}

/// The JSON array of three strings, as `serde_json` writes a tuple of them.
pub open spec fn json_array3(a: Seq<char>, b: Seq<char>, c: Seq<char>) -> Seq<u8> {
    "[".spec_bytes() + json_string(a) + ",".spec_bytes() + json_string(b) + ",".spec_bytes()
        + json_string(c) + "]".spec_bytes()
}

/// The JSON text of the array of three strings.
pub fn json_array3_bytes(a: &str, b: &str, c: &str) -> (res: Vec<u8>)
    ensures
        res@ == json_array3(a@, b@, c@),
{
    let mut out: Vec<u8> = Vec::new();
    push_bytes(&mut out, "[".as_bytes());
    push_json_string(&mut out, a);
    push_bytes(&mut out, ",".as_bytes());
    push_json_string(&mut out, b);
    push_bytes(&mut out, ",".as_bytes());
    push_json_string(&mut out, c);
    push_bytes(&mut out, "]".as_bytes());
    proof {
        assert(out@ =~= json_array3(a@, b@, c@));
    }
    out
}

/// The JSON object of two string members, as `serde_json` writes a struct
/// of two string fields: the keys in order, no spaces.
pub open spec fn json_object2(k1: Seq<char>, v1: Seq<char>, k2: Seq<char>, v2: Seq<char>) -> Seq<u8> {
    "{".spec_bytes() + json_string(k1) + ":".spec_bytes() + json_string(v1) + ",".spec_bytes()
        + json_string(k2) + ":".spec_bytes() + json_string(v2) + "}".spec_bytes()
}

/// The JSON text of the object with the string members `k1: v1` and `k2: v2`.
pub fn json_object2_bytes(k1: &str, v1: &str, k2: &str, v2: &str) -> (res: Vec<u8>)
    ensures
        res@ == json_object2(k1@, v1@, k2@, v2@),
{
    let mut out: Vec<u8> = Vec::new();
    push_bytes(&mut out, "{".as_bytes());
    push_json_string(&mut out, k1);
    push_bytes(&mut out, ":".as_bytes());
    push_json_string(&mut out, v1);
    push_bytes(&mut out, ",".as_bytes());
    push_json_string(&mut out, k2);
    push_bytes(&mut out, ":".as_bytes());
    push_json_string(&mut out, v2);
    push_bytes(&mut out, "}".as_bytes());
    proof {
        assert(out@ =~= json_object2(k1@, v1@, k2@, v2@));
    }
    out
}

} // verus!
