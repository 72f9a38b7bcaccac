use vstd::prelude::*;
use vstd::string::*;
use vstd::utf8::*;

verus! {

/// The lowercase hex digit for a value below 16.
pub open spec fn hex_digit(n: u8) -> char
    recommends
        n < 16,
{
    seq!['0', '1', '2', '3', '4', '5', '6', '7', '8', '9', 'a', 'b', 'c', 'd', 'e', 'f'][n as int]
}

/// Lowercase hex text of `b`: two digits per byte, the high half first.
pub open spec fn hex_lower(b: Seq<u8>) -> Seq<char> {
    Seq::new(
        2 * b.len(),
        |i: int|
            if i % 2 == 0 {
                hex_digit(b[i / 2] / 16)
            } else {
                hex_digit(b[i / 2] % 16)
            },
    )
}

/// The value of one hex digit, in either case, given as a byte.
pub open spec fn hex_value(c: u8) -> Option<u8> {
    if 48 <= c <= 57 {
        Some((c - 48) as u8)
    } else if 97 <= c <= 102 {
        Some((c - 87) as u8)
    } else if 65 <= c <= 70 {
        Some((c - 55) as u8)
    } else {
        None
    }
}

/// Whether `h` is hex text: an even number of hex digits.
pub open spec fn is_hex_text(h: Seq<u8>) -> bool {
    &&& h.len() % 2 == 0
    &&& forall|i: int| 0 <= i < h.len() ==> (#[trigger] hex_value(h[i])).is_some()
}

/// The bytes that the hex text `h` stands for, one per pair of digits.
pub open spec fn hex_bytes(h: Seq<u8>) -> Seq<u8> {
    Seq::new(
        h.len() / 2,
        |i: int| (hex_value(h[2 * i]).unwrap() * 16 + hex_value(h[2 * i + 1]).unwrap()) as u8,
    )
}

/// What decoding the text `s` as hex gives: the bytes, or `None` when `s` is
/// not hex text.
pub open spec fn hex_decoded(s: Seq<char>) -> Option<Seq<u8>> {
    if is_hex_text(encode_utf8(s)) {
        Some(hex_bytes(encode_utf8(s)))
    } else {
        None
    }
}

/// Relies on hex::encode: each byte becomes two lowercase hex digits, the
/// high half first.
#[verifier::external_body]
pub(crate) fn hex_encode(b: &[u8]) -> (r: String)
    ensures
        r@ == hex_lower(b@),
{
    hex::encode(b)
}

/// Relies on hex::decode: text of even length made of hex digits of either
/// case decodes to one byte per pair of digits; any other text is refused.
#[verifier::external_body]
pub(crate) fn hex_decode(s: &str) -> (r: Option<Vec<u8>>)
    ensures
        r.is_some() <==> is_hex_text(s.spec_bytes()),
        r matches Some(v) ==> v@ == hex_bytes(s.spec_bytes()),
{
    hex::decode(s).ok()
}

/// Decoding the lowercase hex text of any bytes gives those bytes back.
pub proof fn lemma_hex_round_trip(b: Seq<u8>)
    ensures
        hex_decoded(hex_lower(b)) == Some(b),
{
    let t = hex_lower(b);
    assert forall|n: u8| n < 16 implies hex_value(hex_digit(n) as u8) == Some(n) && '\0' <= hex_digit(n) <= '\u{7f}' by {
        assert(n == 0 || n == 1 || n == 2 || n == 3 || n == 4 || n == 5 || n == 6 || n == 7 || n == 8
            || n == 9 || n == 10 || n == 11 || n == 12 || n == 13 || n == 14 || n == 15);
    }
    assert(is_ascii_chars(t));
    is_ascii_chars_encode_utf8(t);
    let h = encode_utf8(t);
    assert(forall|i: int| 0 <= i < h.len() ==> h[i] == t[i] as u8);
    assert(is_hex_text(h));
    assert(hex_bytes(h) =~= b);
}

} // verus!
