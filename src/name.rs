use vstd::prelude::*;
use vstd::utf8::*;

use crate::text::{cstr_buffer, cstr_to_string, fits_field, lemma_field_round_trip, str_to_cert_cstr, text_of_cstr, CSTR_MAX_TEXT};

verus! {

/// Engine buffers of a name's twelve fields, in the order of
/// [`CertificateName`]'s fields.
pub struct CapiName {
    pub serial_no: [u8; 128],
    pub common_name: [u8; 128],
    pub country: [u8; 128],
    pub organization: [u8; 128],
    pub unit: [u8; 128],
    pub locality: [u8; 128],
    pub province: [u8; 128],
    pub street_address: [u8; 128],
    pub postal_code: [u8; 128],
    pub email: [u8; 128],
    pub url: [u8; 128],
    pub host: [u8; 128],
}

impl View for CapiName {
    type V = Seq<Seq<u8>>;

    open spec fn view(&self) -> Seq<Seq<u8>> {
        seq![
            self.serial_no@,
            self.common_name@,
            self.country@,
            self.organization@,
            self.unit@,
            self.locality@,
            self.province@,
            self.street_address@,
            self.postal_code@,
            self.email@,
            self.url@,
            self.host@,
        ]
    }
}

/// Human-readable subject or issuer fields. Values are free-form text; each
/// is cut to 126 bytes in the engine's form.
#[allow(non_snake_case)]
pub struct CertificateName {
    pub serialNo: String,
    pub commonName: String,
    pub country: String,
    pub organization: String,
    pub unit: String,
    pub locality: String,
    pub province: String,
    pub streetAddress: String,
    pub postalCode: String,
    pub email: String,
    pub url: String,
    pub host: String,
}

impl View for CertificateName {
    type V = Seq<Seq<char>>;

    open spec fn view(&self) -> Seq<Seq<char>> {
        seq![
            self.serialNo@,
            self.commonName@,
            self.country@,
            self.organization@,
            self.unit@,
            self.locality@,
            self.province@,
            self.streetAddress@,
            self.postalCode@,
            self.email@,
            self.url@,
            self.host@,
        ]
    }
}

/// The engine buffers of a name with the given fields.
pub open spec fn name_to_buffers(n: Seq<Seq<char>>) -> Seq<Seq<u8>> {
    n.map_values(|f: Seq<char>| cstr_buffer(encode_utf8(f)))
}

/// The fields of the name that the given engine buffers hold.
pub open spec fn buffers_to_name(b: Seq<Seq<u8>>) -> Seq<Seq<char>> {
    b.map_values(|f: Seq<u8>| text_of_cstr(f, CSTR_MAX_TEXT as nat))
}

/// Whether every field of a name fits its engine buffer unchanged.
pub open spec fn name_fits(n: Seq<Seq<char>>) -> bool {
    forall|i: int| 0 <= i < n.len() ==> fits_field(#[trigger] n[i])
}

impl CertificateName {
    /// A name with every field empty.
    pub fn new() -> (r: CertificateName)
        ensures
            forall|i: int| 0 <= i < 12 ==> (#[trigger] r@[i]).len() == 0,
    {
        CertificateName {
            serialNo: String::new(),
            commonName: String::new(),
            country: String::new(),
            organization: String::new(),
            unit: String::new(),
            locality: String::new(),
            province: String::new(),
            streetAddress: String::new(),
            postalCode: String::new(),
            email: String::new(),
            url: String::new(),
            host: String::new(),
        }
    }

    /// A name equal to this one.
    pub fn duplicate(&self) -> (r: CertificateName)
        ensures
            r@ == self@,
    {
        CertificateName {
            serialNo: self.serialNo.clone(),
            commonName: self.commonName.clone(),
            country: self.country.clone(),
            organization: self.organization.clone(),
            unit: self.unit.clone(),
            locality: self.locality.clone(),
            province: self.province.clone(),
            streetAddress: self.streetAddress.clone(),
            postalCode: self.postalCode.clone(),
            email: self.email.clone(),
            url: self.url.clone(),
            host: self.host.clone(),
        }
    }

    /// The name that the engine buffers hold: each field is read up to its
    /// first zero byte and at most 126 bytes.
    pub fn new_from_capi(cn: &CapiName) -> (r: CertificateName)
        ensures
            r@ == buffers_to_name(cn@),
    {
        let r = CertificateName {
            serialNo: cstr_to_string(cn.serial_no.as_slice(), CSTR_MAX_TEXT),
            commonName: cstr_to_string(cn.common_name.as_slice(), CSTR_MAX_TEXT),
            country: cstr_to_string(cn.country.as_slice(), CSTR_MAX_TEXT),
            organization: cstr_to_string(cn.organization.as_slice(), CSTR_MAX_TEXT),
            unit: cstr_to_string(cn.unit.as_slice(), CSTR_MAX_TEXT),
            locality: cstr_to_string(cn.locality.as_slice(), CSTR_MAX_TEXT),
            province: cstr_to_string(cn.province.as_slice(), CSTR_MAX_TEXT),
            streetAddress: cstr_to_string(cn.street_address.as_slice(), CSTR_MAX_TEXT),
            postalCode: cstr_to_string(cn.postal_code.as_slice(), CSTR_MAX_TEXT),
            email: cstr_to_string(cn.email.as_slice(), CSTR_MAX_TEXT),
            url: cstr_to_string(cn.url.as_slice(), CSTR_MAX_TEXT),
            host: cstr_to_string(cn.host.as_slice(), CSTR_MAX_TEXT),
        };
        assert(r@ =~= buffers_to_name(cn@));
        r
    }

    /// The engine buffers of this name: each field's UTF-8 bytes, cut after
    /// 126 bytes and followed by zeros.
    pub fn to_capi(&self) -> (r: CapiName)
        ensures
            r@ == name_to_buffers(self@),
    {
        let r = CapiName {
            serial_no: str_to_cert_cstr(&self.serialNo),
            common_name: str_to_cert_cstr(&self.commonName),
            country: str_to_cert_cstr(&self.country),
            organization: str_to_cert_cstr(&self.organization),
            unit: str_to_cert_cstr(&self.unit),
            locality: str_to_cert_cstr(&self.locality),
            province: str_to_cert_cstr(&self.province),
            street_address: str_to_cert_cstr(&self.streetAddress),
            postal_code: str_to_cert_cstr(&self.postalCode),
            email: str_to_cert_cstr(&self.email),
            url: str_to_cert_cstr(&self.url),
            host: str_to_cert_cstr(&self.host),
        };
        assert(r@ =~= name_to_buffers(self@));
        r
    }
}

/// A name whose fields each fit their buffer is read back unchanged from its
/// engine form.
pub proof fn lemma_name_round_trip(n: Seq<Seq<char>>)
    requires
        name_fits(n),
    ensures
        buffers_to_name(name_to_buffers(n)) == n,
{
    assert forall|i: int| 0 <= i < n.len() implies #[trigger] buffers_to_name(name_to_buffers(n))[i]
        == n[i] by {
        lemma_field_round_trip(n[i]);
    }
    assert(buffers_to_name(name_to_buffers(n)) =~= n);
}

} // verus!
