use vstd::prelude::*;

use crate::buffers::{copy_bytes, copy_prefix};
use crate::error::{error_of_code, CertificateError, CERTIFICATE_ERROR_NONE};
use crate::ids::{Identity, IdentityView};
use crate::name::{buffers_to_name, lemma_name_round_trip, name_fits, name_to_buffers, CapiName, CertificateName};
use crate::result_code::ResultCode;
use crate::serial::CertificateSerialNo;
use crate::subject::{
    lemma_subject_round_trip, subject_fits, subject_from_capi, subject_to_capi, CapiSubject, CapiSubjectView,
    CertificateSubject, SubjectView,
};

verus! {

/// Maximum length of a string in a certificate, terminator included.
pub const CERTIFICATE_MAX_STRING_LENGTH: isize = 127;

/// Certificate local trust bit field flag: this certificate self-signs a root CA.
pub const CERTIFICATE_LOCAL_TRUST_FLAG_ROOT_CA: u32 = 1;

/// Certificate local trust bit field flag: this certificate specifies a set of
/// ZeroTier roots.
pub const CERTIFICATE_LOCAL_TRUST_FLAG_ZEROTIER_ROOT_SET: u32 = 2;

/// Size of the scratch buffer that encoding, signing and signing requests
/// write into: no encoded certificate or request is longer.
pub const CERTIFICATE_MAX_ENCODED_SIZE: usize = 16384;

/// Engine-facing form of a certificate. A revocation-list entry may be
/// absent, as a null entry of the engine's list.
pub struct CapiCertificate {
    pub serial_no: [u8; 48],
    pub flags: u64,
    pub timestamp: i64,
    pub validity: [i64; 2],
    pub subject: CapiSubject,
    pub issuer: Identity,
    pub issuer_name: CapiName,
    pub extended_attributes: Vec<u8>,
    pub max_path_length: u32,
    pub crl: Vec<Option<[u8; 48]>>,
    pub signature: Vec<u8>,
}

/// The bytes of an optional serial number.
pub open spec fn serial_opt_view(s: Option<[u8; 48]>) -> Option<Seq<u8>> {
    match s {
        Some(a) => Some(a@),
        None => None,
    }
}

/// Value of an engine-facing certificate.
pub struct CapiCertificateView {
    pub serial_no: Seq<u8>,
    pub flags: u64,
    pub timestamp: i64,
    pub validity: Seq<i64>,
    pub subject: CapiSubjectView,
    pub issuer: IdentityView,
    pub issuer_name: Seq<Seq<u8>>,
    pub extended_attributes: Seq<u8>,
    pub max_path_length: u32,
    pub crl: Seq<Option<Seq<u8>>>,
    pub signature: Seq<u8>,
}

impl View for CapiCertificate {
    type V = CapiCertificateView;

    open spec fn view(&self) -> CapiCertificateView {
        CapiCertificateView {
            serial_no: self.serial_no@,
            flags: self.flags,
            timestamp: self.timestamp,
            validity: self.validity@,
            subject: self.subject@,
            issuer: self.issuer@,
            issuer_name: self.issuer_name@,
            extended_attributes: self.extended_attributes@,
            max_path_length: self.max_path_length,
            crl: self.crl@.map_values(|e: Option<[u8; 48]>| serial_opt_view(e)),
            signature: self.signature@,
        }
    }
}

/// A certificate: a subject vouched for by an issuer over a validity window
/// `[validity[0], validity[1]]`, with a revocation list and a signature.
/// `flags` holds local trust marks, which verification does not judge.
#[allow(non_snake_case)]
pub struct Certificate {
    pub serialNo: CertificateSerialNo,
    pub flags: u64,
    pub timestamp: i64,
    pub validity: [i64; 2],
    pub subject: CertificateSubject,
    pub issuer: Identity,
    pub issuerName: CertificateName,
    pub extendedAttributes: Vec<u8>,
    pub maxPathLength: u32,
    pub crl: Vec<CertificateSerialNo>,
    pub signature: Vec<u8>,
}

/// Value of a certificate.
pub struct CertificateView {
    pub serial_no: Seq<u8>,
    pub flags: u64,
    pub timestamp: i64,
    pub validity: Seq<i64>,
    pub subject: SubjectView,
    pub issuer: IdentityView,
    pub issuer_name: Seq<Seq<char>>,
    pub extended_attributes: Seq<u8>,
    pub max_path_length: u32,
    pub crl: Seq<Seq<u8>>,
    pub signature: Seq<u8>,
}

impl View for Certificate {
    type V = CertificateView;

    open spec fn view(&self) -> CertificateView {
        CertificateView {
            serial_no: self.serialNo.bytes(),
            flags: self.flags,
            timestamp: self.timestamp,
            validity: self.validity@,
            subject: self.subject@,
            issuer: self.issuer@,
            issuer_name: self.issuerName@,
            extended_attributes: self.extendedAttributes@,
            max_path_length: self.maxPathLength,
            crl: self.crl@.map_values(|s: CertificateSerialNo| s.bytes()),
            signature: self.signature@,
        }
    }
}

/// The serial numbers that an engine revocation list holds, in order,
/// leaving out absent entries.
pub open spec fn crl_from_capi(c: Seq<Option<Seq<u8>>>) -> Seq<Seq<u8>>
    decreases c.len(),
{
    if c.len() == 0 {
        Seq::empty()
    } else {
        let rest = crl_from_capi(c.drop_last());
        match c.last() {
            Some(s) => rest.push(s),
            None => rest,
        }
    }
}

/// The engine form of a certificate.
pub open spec fn certificate_to_capi(c: CertificateView) -> CapiCertificateView {
    CapiCertificateView {
        serial_no: c.serial_no,
        flags: c.flags,
        timestamp: c.timestamp,
        validity: c.validity,
        subject: subject_to_capi(c.subject),
        issuer: c.issuer,
        issuer_name: name_to_buffers(c.issuer_name),
        extended_attributes: c.extended_attributes,
        max_path_length: c.max_path_length,
        crl: c.crl.map_values(|s: Seq<u8>| Some(s)),
        signature: c.signature,
    }
}

/// The certificate that an engine record describes.
pub open spec fn certificate_from_capi(c: CapiCertificateView) -> CertificateView {
    CertificateView {
        serial_no: c.serial_no,
        flags: c.flags,
        timestamp: c.timestamp,
        validity: c.validity,
        subject: subject_from_capi(c.subject),
        issuer: c.issuer,
        issuer_name: buffers_to_name(c.issuer_name),
        extended_attributes: c.extended_attributes,
        max_path_length: c.max_path_length,
        crl: crl_from_capi(c.crl),
        signature: c.signature,
    }
}

/// Whether a certificate survives its engine form unchanged: its subject fits,
/// and so does every field of its issuer's name.
pub open spec fn certificate_fits(c: CertificateView) -> bool {
    &&& subject_fits(c.subject)
    &&& name_fits(c.issuer_name)
}

/// The value of an optional engine record.
pub open spec fn capi_opt_view(c: Option<&CapiCertificate>) -> Option<CapiCertificateView> {
    match c {
        Some(x) => Some(x@),
        None => None,
    }
}

/// What a certificate decode gives, from the engine's result code and the
/// record it decoded, if any: the code's kind where the engine refused the
/// bytes, `InvalidFormat` where it reported success but gave no record, and
/// the certificate that the record describes otherwise.
pub open spec fn decode_outcome(code: int, decoded: Option<CapiCertificateView>) -> Result<CertificateView, CertificateError> {
    if code != CERTIFICATE_ERROR_NONE {
        Err(error_of_code(code))
    } else {
        match decoded {
            Some(c) => Ok(certificate_from_capi(c)),
            None => Err(CertificateError::InvalidFormat),
        }
    }
}

/// The output of an engine call that writes into a scratch buffer: the first
/// `size` bytes of `buf` when the call succeeded and reported a size that the
/// buffer holds; `failure` otherwise.
pub open spec fn engine_output_spec(status: i32, buf: Seq<u8>, size: i32, failure: ResultCode) -> Result<Seq<u8>, ResultCode> {
    if status == 0 && 0 <= size <= buf.len() {
        Ok(buf.subrange(0, size as int))
    } else {
        Err(failure)
    }
}

/// The output of an engine call that wrote `size` bytes into the scratch
/// buffer `buf` and returned `status`, trimmed to the bytes written; the
/// error `failure` where the call failed or reported a size that the buffer
/// cannot hold.
pub fn engine_output(status: i32, buf: &[u8], size: i32, failure: ResultCode) -> (r: Result<Vec<u8>, ResultCode>)
    ensures
        r is Ok <==> engine_output_spec(status, buf@, size, failure) is Ok,
        r matches Ok(v) ==> engine_output_spec(status, buf@, size, failure) == Ok::<Seq<u8>, ResultCode>(v@),
        r matches Err(e) ==> e == failure,
{
    if status != 0 || size < 0 || size as usize > buf.len() {
        return Err(failure);
    }
    Ok(copy_prefix(buf, size as usize))
}

impl Certificate {
    /// The certificate that an engine record describes. Absent revocation
    /// entries are left out.
    pub fn new_from_capi(c: &CapiCertificate) -> (r: Certificate)
        ensures
            r@ == certificate_from_capi(c@),
    {
        let ghost cv = c@;
        let mut crl: Vec<CertificateSerialNo> = Vec::new();
        let mut i: usize = 0;
        while i < c.crl.len()
            invariant
                cv == c@,
                i <= c.crl@.len(),
                crl@.len() == crl_from_capi(cv.crl.take(i as int)).len(),
                forall|j: int| 0 <= j < crl@.len() ==> #[trigger] crl@[j].bytes() == crl_from_capi(
                    cv.crl.take(i as int),
                )[j],
            decreases c.crl@.len() - i,
        {
            assert(cv.crl.take(i + 1).drop_last() =~= cv.crl.take(i as int));
            match &c.crl[i] {
                Some(a) => {
                    crl.push(CertificateSerialNo::from_array(a));
                },
                None => {},
            }
            i = i + 1;
        }
        assert(cv.crl.take(cv.crl.len() as int) =~= cv.crl);
        let r = Certificate {
            serialNo: CertificateSerialNo::from_array(&c.serial_no),
            flags: c.flags,
            timestamp: c.timestamp,
            validity: c.validity,
            subject: CertificateSubject::new_from_capi(&c.subject),
            issuer: c.issuer.duplicate(),
            issuerName: CertificateName::new_from_capi(&c.issuer_name),
            extendedAttributes: copy_bytes(&c.extended_attributes),
            maxPathLength: c.max_path_length,
            crl,
            signature: copy_bytes(&c.signature),
        };
        assert(r@.crl =~= certificate_from_capi(cv).crl);
        r
    }

    /// The engine record of this certificate.
    pub fn to_capi(&self) -> (r: CapiCertificate)
        ensures
            r@ == certificate_to_capi(self@),
    {
        let ghost sv = self@;
        let mut crl: Vec<Option<[u8; 48]>> = Vec::new();
        let mut i: usize = 0;
        while i < self.crl.len()
            invariant
                sv == self@,
                i <= self.crl@.len(),
                crl@.len() == i,
                forall|j: int| 0 <= j < i ==> #[trigger] serial_opt_view(crl@[j]) == Some(self.crl@[j].bytes()),
            decreases self.crl@.len() - i,
        {
            crl.push(Some(self.crl[i].0));
            i = i + 1;
        }
        let r = CapiCertificate {
            serial_no: self.serialNo.0,
            flags: self.flags,
            timestamp: self.timestamp,
            validity: self.validity,
            subject: self.subject.to_capi(),
            issuer: self.issuer.duplicate(),
            issuer_name: self.issuerName.to_capi(),
            extended_attributes: copy_bytes(&self.extendedAttributes),
            max_path_length: self.maxPathLength,
            crl,
            signature: copy_bytes(&self.signature),
        };
        assert(r@.crl =~= certificate_to_capi(sv).crl);
        r
    }

    /// The certificate that a decode gave, from the engine's result code and
    /// the record it decoded. A code other than success is passed on as its
    /// kind (an unknown one as `InvalidFormat`), and so is a success without a
    /// record, as `InvalidFormat`; never is a failure taken as success.
    pub fn from_decode_result(code: i32, decoded: Option<&CapiCertificate>) -> (r: Result<Certificate, CertificateError>)
        ensures
            r is Ok <==> decode_outcome(code as int, capi_opt_view(decoded)) is Ok,
            r matches Ok(c) ==> decode_outcome(code as int, capi_opt_view(decoded))
                == Ok::<CertificateView, CertificateError>(c@),
            r matches Err(e) ==> decode_outcome(code as int, capi_opt_view(decoded))
                == Err::<CertificateView, CertificateError>(e),
            r matches Err(e) ==> e != CertificateError::NoError,
    {
        if code != CERTIFICATE_ERROR_NONE {
            return Err(CertificateError::from_code(code));
        }
        match decoded {
            Some(c) => Ok(Certificate::new_from_capi(c)),
            None => Err(CertificateError::InvalidFormat),
        }
    }

    /// The engine record to sign with `issuer`. Signing needs the issuer's
    /// private key: without one the request is refused with
    /// `ErrorBadParameter`, whatever the certificate holds.
    pub fn sign_request(&self, issuer: &Identity) -> (r: Result<CapiCertificate, ResultCode>)
        ensures
            r is Ok <==> issuer.has_private_spec(),
            r matches Ok(c) ==> c@ == certificate_to_capi(self@),
            r matches Err(e) ==> e == ResultCode::ErrorBadParameter,
    {
        if !issuer.has_private() {
            return Err(ResultCode::ErrorBadParameter);
        }
        Ok(self.to_capi())
    }
}

/// A certificate whose subject and issuer name fit their engine buffers is
/// read back unchanged from its engine form.
pub proof fn lemma_certificate_round_trip(c: CertificateView)
    requires
        certificate_fits(c),
    ensures
        certificate_from_capi(certificate_to_capi(c)) == c,
{
    lemma_subject_round_trip(c.subject);
    lemma_name_round_trip(c.issuer_name);
    lemma_crl_round_trip(c.crl);
}

/// A revocation list read back from its engine form is the same list.
proof fn lemma_crl_round_trip(s: Seq<Seq<u8>>)
    ensures
        crl_from_capi(s.map_values(|x: Seq<u8>| Some(x))) == s,
    decreases s.len(),
{
    let m = s.map_values(|x: Seq<u8>| Some(x));
    if s.len() > 0 {
        assert(m.drop_last() =~= s.drop_last().map_values(|x: Seq<u8>| Some(x)));
        lemma_crl_round_trip(s.drop_last());
        assert(s.drop_last().push(s.last()) =~= s);
    } else {
        assert(s =~= Seq::<Seq<u8>>::empty());
    }
}

} // verus!
