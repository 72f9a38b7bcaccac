use vstd::prelude::*;

use crate::hexcodec::{hex_decode, hex_decoded, hex_encode, hex_lower, lemma_hex_round_trip};
use crate::result_code::ResultCode;

verus! {

/// Number of bytes in a certificate serial number.
pub const SERIAL_NO_SIZE: usize = 48;

/// The 48 bytes that a serial number holds when built from `b`: the first 48
/// bytes of `b`, and zeros where `b` is shorter.
pub open spec fn clamp_serial(b: Seq<u8>) -> Seq<u8> {
    Seq::new(48, |i: int| if i < b.len() { b[i] } else { 0u8 })
}

/// The bytes of the serial number that the text `s` gives, or `None` where
/// `s` is not hex text. Decoded text of another length than 48 bytes is
/// clamped: cut after 48 bytes or padded with zeros.
pub open spec fn serial_from_text(s: Seq<char>) -> Option<Seq<u8>> {
    match hex_decoded(s) {
        Some(b) => Some(clamp_serial(b)),
        None => None,
    }
}

/// A certificate serial number: 48 raw bytes; all zeros means "unset".
#[derive(Clone, Copy, Debug, PartialEq, Eq)]
pub struct CertificateSerialNo(pub [u8; 48]);

impl CertificateSerialNo {
    /// The bytes of this serial number.
    pub open spec fn bytes(&self) -> Seq<u8> {
        self.0@
    }

    /// Whether this serial number is the all-zero "unset" value.
    pub open spec fn is_unset(&self) -> bool {
        forall|i: int| 0 <= i < 48 ==> self.bytes()[i] == 0u8
    }

    /// Create a new empty (all zero) serial number.
    pub fn new() -> (r: CertificateSerialNo)
        ensures
            r.bytes() == clamp_serial(Seq::empty()),
            r.is_unset(),
    {
        let r = CertificateSerialNo([0u8; 48]);
        assert(r.bytes() =~= clamp_serial(Seq::empty()));
        r
    }

    /// A serial number holding exactly the given 48 bytes.
    pub fn from_array(a: &[u8; 48]) -> (r: CertificateSerialNo)
        ensures
            r.bytes() == a@,
    {
        CertificateSerialNo(*a)
    }

    /// A serial number built from a slice of any length: the first 48 bytes are
    /// kept and a shorter slice is padded with zeros.
    pub fn from_slice(v: &[u8]) -> (r: CertificateSerialNo)
        ensures
            r.bytes() == clamp_serial(v@),
    {
        let mut s = CertificateSerialNo::new();
        let mut l: usize = v.len();
        if l > SERIAL_NO_SIZE {
            l = SERIAL_NO_SIZE;
        }
        let mut i: usize = 0;
        while i < l
            invariant
                l <= 48,
                l <= v@.len(),
                l == v@.len() || l == 48,
                i <= l,
                s.bytes().len() == 48,
                forall|j: int| 0 <= j < i ==> s.bytes()[j] == v@[j],
                forall|j: int| i <= j < 48 ==> s.bytes()[j] == 0u8,
            decreases l - i,
        {
            s.0[i] = v[i];
            i = i + 1;
        }
        assert(s.bytes() =~= clamp_serial(v@));
        s
    }

    /// Parse a serial number from hex text (either case). Decoded bytes beyond
    /// 48 are dropped and fewer are padded with zeros.
    pub fn new_from_string(s: &str) -> (r: Result<CertificateSerialNo, ResultCode>)
        ensures
            r is Ok <==> serial_from_text(s@) is Some,
            r matches Ok(sn) ==> serial_from_text(s@) == Some(sn.bytes()),
            r matches Err(e) ==> e == ResultCode::ErrorBadParameter,
    {
        match hex_decode(s) {
            Some(b) => Ok(CertificateSerialNo::from_slice(b.as_slice())),
            None => Err(ResultCode::ErrorBadParameter),
        }
    }

    /// The serial number as 96 lowercase hex digits.
    pub fn to_string(&self) -> (r: String)
        ensures
            r@ == hex_lower(self.bytes()),
            r@.len() == 96,
    {
        hex_encode(self.0.as_slice())
    }
}

/// Reading back the text of a serial number gives the same 48 bytes.
pub proof fn lemma_serial_text_round_trip(sn: CertificateSerialNo)
    ensures
        serial_from_text(hex_lower(sn.bytes())) == Some(sn.bytes()),
{
    lemma_hex_round_trip(sn.bytes());
    assert(clamp_serial(sn.bytes()) =~= sn.bytes());
}

/// Building a serial number from a slice keeps exactly its first 48 bytes
/// when it is longer, and pads it with zeros when it is shorter.
pub proof fn lemma_clamping(v: Seq<u8>)
    ensures
        v.len() >= 48 ==> clamp_serial(v) == v.subrange(0, 48),
        v.len() < 48 ==> clamp_serial(v) == v + Seq::new((48 - v.len()) as nat, |i: int| 0u8),
{
    if v.len() >= 48 {
        assert(clamp_serial(v) =~= v.subrange(0, 48));
    } else {
        assert(clamp_serial(v) =~= v + Seq::new((48 - v.len()) as nat, |i: int| 0u8));
    }
}

} // verus!
