use vstd::prelude::*;
use vstd::utf8::*;

use crate::buffers::copy_prefix;

verus! {

/// Size of the engine's buffer for one text field, terminator included.
pub const CSTR_BUF_SIZE: usize = 128;

/// Most bytes of text that a field keeps: room is left for the terminator.
pub const CSTR_MAX_TEXT: usize = 126;

/// The engine buffer of a text field holding the bytes `b`: the first 126
/// bytes of `b`, then zeros up to 128 bytes, so that a zero terminator always
/// follows the text.
pub open spec fn cstr_buffer(b: Seq<u8>) -> Seq<u8> {
    Seq::new(
        CSTR_BUF_SIZE as nat,
        |i: int|
            if i < b.len() && i < CSTR_MAX_TEXT {
                b[i]
            } else {
                0u8
            },
    )
}

/// The bytes of `b` before its first zero byte, and at most `max` of them.
pub open spec fn cstr_prefix(b: Seq<u8>, max: nat) -> Seq<u8>
    decreases b.len(),
{
    if b.len() == 0 || max == 0 || b[0] == 0 {
        Seq::empty()
    } else {
        seq![b[0]] + cstr_prefix(b.drop_first(), (max - 1) as nat)
    }
}

/// The text that the engine string `b` holds when read with at most `max`
/// bytes: its bytes before the first zero, decoded as UTF-8; empty where they
/// are not UTF-8.
pub open spec fn text_of_cstr(b: Seq<u8>, max: nat) -> Seq<char> {
    let p = cstr_prefix(b, max);
    if valid_utf8(p) {
        decode_utf8(p)
    } else {
        Seq::empty()
    }
}

/// Whether `b` holds no zero byte.
pub open spec fn no_nul(b: Seq<u8>) -> bool {
    forall|i: int| 0 <= i < b.len() ==> #[trigger] b[i] != 0
}

/// Whether the text `s` survives a field buffer unchanged: at most 126 bytes
/// of UTF-8 and no zero byte among them.
pub open spec fn fits_field(s: Seq<char>) -> bool {
    &&& encode_utf8(s).len() <= CSTR_MAX_TEXT
    &&& no_nul(encode_utf8(s))
}

/// Relies on std::str::from_utf8: it accepts exactly the valid UTF-8 byte
/// sequences and gives the text that they encode.
#[verifier::external_body]
fn utf8_to_string(b: &[u8]) -> (r: Option<String>)
    ensures
        r is Some <==> valid_utf8(b@),
        r matches Some(s) ==> s@ == decode_utf8(b@),
{
    match std::str::from_utf8(b) {
        Ok(s) => Some(s.to_owned()),
        Err(_) => None,
    }
}

/// The length of the engine string found at the start of `b`.
proof fn lemma_cstr_prefix(b: Seq<u8>, max: nat, n: nat)
    requires
        n <= max,
        n <= b.len(),
        forall|j: int| 0 <= j < n ==> #[trigger] b[j] != 0,
        n == max || n == b.len() || b[n as int] == 0,
    ensures
        cstr_prefix(b, max) == b.subrange(0, n as int),
    decreases n,
{
    if n == 0 {
        assert(b.subrange(0, 0) =~= Seq::<u8>::empty());
    } else {
        assert(b[0] != 0);
        let rest = b.drop_first();
        assert forall|j: int| 0 <= j < (n - 1) as nat implies #[trigger] rest[j] != 0 by {
            assert(rest[j] == b[j + 1]);
        }
        lemma_cstr_prefix(rest, (max - 1) as nat, (n - 1) as nat);
        assert(seq![b[0]] + rest.subrange(0, n - 1) =~= b.subrange(0, n as int));
    }
}

/// The engine buffer of a text field: its UTF-8 bytes, cut after 126 bytes,
/// then zeros.
pub fn str_to_cert_cstr(s: &String) -> (r: [u8; 128])
    ensures
        r@ == cstr_buffer(encode_utf8(s@)),
{
    let b: &[u8] = s.as_str().as_bytes();
    let mut cs = [0u8; 128];
    let mut l: usize = b.len();
    if l > CSTR_MAX_TEXT {
        l = CSTR_MAX_TEXT;
    }
    let mut i: usize = 0;
    while i < l
        invariant
            b@ == encode_utf8(s@),
            l <= CSTR_MAX_TEXT,
            l <= b@.len(),
            l == b@.len() || l == CSTR_MAX_TEXT,
            i <= l,
            cs@.len() == 128,
            forall|j: int| 0 <= j < i ==> cs@[j] == b@[j],
            forall|j: int| i <= j < 128 ==> cs@[j] == 0u8,
        decreases l - i,
    {
        cs[i] = b[i];
        i = i + 1;
    }
    assert(cs@ =~= cstr_buffer(encode_utf8(s@)));
    cs
}

/// The text of an engine string: the bytes before the first zero, at most
/// `max` of them, decoded as UTF-8; empty where they are not UTF-8.
pub fn cstr_to_string(b: &[u8], max: usize) -> (r: String)
    ensures
        r@ == text_of_cstr(b@, max as nat),
{
    let mut n: usize = 0;
    while n < max && n < b.len() && b[n] != 0
        invariant
            n <= max,
            n <= b@.len(),
            forall|j: int| 0 <= j < n ==> #[trigger] b@[j] != 0,
        decreases max - n,
    {
        n = n + 1;
    }
    proof {
        lemma_cstr_prefix(b@, max as nat, n as nat);
    }
    let p = copy_prefix(b, n);
    match utf8_to_string(p.as_slice()) {
        Some(t) => t,
        None => String::new(),
    }
}

/// Text that fits a field is read back unchanged from the field's buffer.
pub proof fn lemma_field_round_trip(s: Seq<char>)
    requires
        fits_field(s),
    ensures
        text_of_cstr(cstr_buffer(encode_utf8(s)), CSTR_MAX_TEXT as nat) == s,
{
    let b = encode_utf8(s);
    let buf = cstr_buffer(b);
    lemma_cstr_prefix(buf, CSTR_MAX_TEXT as nat, b.len());
    assert(buf.subrange(0, b.len() as int) =~= b);
    encode_utf8_valid_utf8(s);
    encode_utf8_decode_utf8(s);
}

/// Text longer than 126 bytes keeps exactly its first 126 bytes, followed by
/// a terminator; empty text is a terminator alone.
pub proof fn lemma_field_truncation(b: Seq<u8>)
    ensures
        b.len() > CSTR_MAX_TEXT ==> cstr_buffer(b).subrange(0, CSTR_MAX_TEXT as int) == b.subrange(
            0,
            CSTR_MAX_TEXT as int,
        ) && cstr_buffer(b)[CSTR_MAX_TEXT as int] == 0,
        b.len() == 0 ==> cstr_buffer(b)[0] == 0,
        forall|i: int| b.len() <= i < CSTR_BUF_SIZE ==> cstr_buffer(b)[i] == 0,
{
    if b.len() > CSTR_MAX_TEXT {
        assert(cstr_buffer(b).subrange(0, CSTR_MAX_TEXT as int) =~= b.subrange(0, CSTR_MAX_TEXT as int));
    }
}

/// Text that fits a field is read back unchanged from its UTF-8 bytes.
pub proof fn lemma_text_round_trip(s: Seq<char>)
    requires
        fits_field(s),
    ensures
        text_of_cstr(encode_utf8(s), CSTR_MAX_TEXT as nat) == s,
{
    let b = encode_utf8(s);
    lemma_cstr_prefix(b, CSTR_MAX_TEXT as nat, b.len());
    assert(b.subrange(0, b.len() as int) =~= b);
    encode_utf8_valid_utf8(s);
    encode_utf8_decode_utf8(s);
}

} // verus!
