use vstd::prelude::*;
use vstd::utf8::*;

use crate::buffers::copy_bytes;
use crate::identity::{
    binding_opt_view, identity_from_capi, identity_to_capi, lemma_identity_round_trip, CapiIdentity,
    CapiIdentityView, CertificateIdentity, CertificateIdentityView,
};
use crate::name::{
    buffers_to_name, lemma_name_round_trip, name_fits, name_to_buffers, CapiName, CertificateName,
};
use crate::network::{lemma_network_round_trip, network_from_capi, network_to_capi, CapiNetwork, CertificateNetwork};
use crate::serial::CertificateSerialNo;
use crate::text::{cstr_to_string, fits_field, lemma_text_round_trip, no_nul, text_of_cstr, CSTR_MAX_TEXT};

verus! {

/// Engine-facing form of a subject. Its update URLs are engine strings: the
/// bytes of each, read up to the first zero byte.
pub struct CapiSubject {
    pub timestamp: i64,
    pub identities: Vec<CapiIdentity>,
    pub networks: Vec<CapiNetwork>,
    pub certificates: Vec<[u8; 48]>,
    pub update_urls: Vec<Vec<u8>>,
    pub name: CapiName,
    pub unique_id: Vec<u8>,
    pub unique_id_proof_signature: Vec<u8>,
}

/// Value of an engine-facing subject.
pub struct CapiSubjectView {
    pub timestamp: i64,
    pub identities: Seq<CapiIdentityView>,
    pub networks: Seq<CapiNetwork>,
    pub certificates: Seq<Seq<u8>>,
    pub update_urls: Seq<Seq<u8>>,
    pub name: Seq<Seq<u8>>,
    pub unique_id: Seq<u8>,
    pub unique_id_proof_signature: Seq<u8>,
}

impl View for CapiSubject {
    type V = CapiSubjectView;

    open spec fn view(&self) -> CapiSubjectView {
        CapiSubjectView {
            timestamp: self.timestamp,
            identities: self.identities@.map_values(|i: CapiIdentity| i@),
            networks: self.networks@,
            certificates: self.certificates@.map_values(|c: [u8; 48]| c@),
            update_urls: self.update_urls@.map_values(|u: Vec<u8>| u@),
            name: self.name@,
            unique_id: self.unique_id@,
            unique_id_proof_signature: self.unique_id_proof_signature@,
        }
    }
}

/// The signable payload of a certificate: what the certificate says of whom.
/// `certificates` refers to other certificates by serial number only.
/// `uniqueId` and `uniqueIdProofSignature` are empty unless a unique-ID key
/// pair was bound to the subject.
#[allow(non_snake_case)]
pub struct CertificateSubject {
    pub timestamp: i64,
    pub identities: Vec<CertificateIdentity>,
    pub networks: Vec<CertificateNetwork>,
    pub certificates: Vec<CertificateSerialNo>,
    pub updateURLs: Vec<String>,
    pub name: CertificateName,
    pub uniqueId: Vec<u8>,
    pub uniqueIdProofSignature: Vec<u8>,
}

/// Value of a subject.
pub struct SubjectView {
    pub timestamp: i64,
    pub identities: Seq<CertificateIdentityView>,
    pub networks: Seq<CertificateNetwork>,
    pub certificates: Seq<Seq<u8>>,
    pub update_urls: Seq<Seq<char>>,
    pub name: Seq<Seq<char>>,
    pub unique_id: Seq<u8>,
    pub unique_id_proof_signature: Seq<u8>,
}

impl View for CertificateSubject {
    type V = SubjectView;

    open spec fn view(&self) -> SubjectView {
        SubjectView {
            timestamp: self.timestamp,
            identities: self.identities@.map_values(|i: CertificateIdentity| i@),
            networks: self.networks@,
            certificates: self.certificates@.map_values(|c: CertificateSerialNo| c.bytes()),
            update_urls: self.updateURLs@.map_values(|u: String| u@),
            name: self.name@,
            unique_id: self.uniqueId@,
            unique_id_proof_signature: self.uniqueIdProofSignature@,
        }
    }
}

/// The bindings that engine records hold, in order, leaving out the records
/// without an identity.
pub open spec fn identities_from_capi(c: Seq<CapiIdentityView>) -> Seq<CertificateIdentityView>
    decreases c.len(),
{
    if c.len() == 0 {
        Seq::empty()
    } else {
        let rest = identities_from_capi(c.drop_last());
        match identity_from_capi(c.last()) {
            Some(x) => rest.push(x),
            None => rest,
        }
    }
}

/// The engine strings of update URLs, in order: the UTF-8 bytes of each URL,
/// leaving out any URL whose bytes hold a zero byte.
pub open spec fn urls_to_capi(u: Seq<Seq<char>>) -> Seq<Seq<u8>>
    decreases u.len(),
{
    if u.len() == 0 {
        Seq::empty()
    } else {
        let rest = urls_to_capi(u.drop_last());
        if no_nul(encode_utf8(u.last())) {
            rest.push(encode_utf8(u.last()))
        } else {
            rest
        }
    }
}

/// The engine form of a subject.
pub open spec fn subject_to_capi(s: SubjectView) -> CapiSubjectView {
    CapiSubjectView {
        timestamp: s.timestamp,
        identities: s.identities.map_values(|i: CertificateIdentityView| identity_to_capi(i)),
        networks: s.networks.map_values(|n: CertificateNetwork| network_to_capi(n)),
        certificates: s.certificates,
        update_urls: urls_to_capi(s.update_urls),
        name: name_to_buffers(s.name),
        unique_id: s.unique_id,
        unique_id_proof_signature: s.unique_id_proof_signature,
    }
}

/// The subject that an engine record describes. Update URLs are read with at
/// most 126 bytes each.
pub open spec fn subject_from_capi(c: CapiSubjectView) -> SubjectView {
    SubjectView {
        timestamp: c.timestamp,
        identities: identities_from_capi(c.identities),
        networks: c.networks.map_values(|n: CapiNetwork| network_from_capi(n)),
        certificates: c.certificates,
        update_urls: c.update_urls.map_values(|u: Seq<u8>| text_of_cstr(u, CSTR_MAX_TEXT as nat)),
        name: buffers_to_name(c.name),
        unique_id: c.unique_id,
        unique_id_proof_signature: c.unique_id_proof_signature,
    }
}

/// Whether a subject survives its engine form unchanged: every name field and
/// every update URL is at most 126 bytes of UTF-8 with no zero byte.
pub open spec fn subject_fits(s: SubjectView) -> bool {
    &&& name_fits(s.name)
    &&& forall|i: int| 0 <= i < s.update_urls.len() ==> fits_field(#[trigger] s.update_urls[i])
}

impl CertificateSubject {
    /// The subject that an engine record describes. Absent identities are
    /// left out; empty lists stay empty.
    pub fn new_from_capi(cs: &CapiSubject) -> (r: CertificateSubject)
        ensures
            r@ == subject_from_capi(cs@),
    {
        let ghost cv = cs@;
        let mut identities: Vec<CertificateIdentity> = Vec::new();
        let mut i: usize = 0;
        while i < cs.identities.len()
            invariant
                cv == cs@,
                i <= cs.identities@.len(),
                identities@.len() == identities_from_capi(cv.identities.take(i as int)).len(),
                forall|j: int| 0 <= j < identities@.len() ==> #[trigger] identities@[j]@
                    == identities_from_capi(cv.identities.take(i as int))[j],
            decreases cs.identities@.len() - i,
        {
            let ci = CertificateIdentity::new_from_capi(&cs.identities[i]);
            assert(cv.identities.take(i + 1).drop_last() =~= cv.identities.take(i as int));
            match ci {
                Some(x) => {
                    identities.push(x);
                },
                None => {},
            }
            i = i + 1;
        }
        assert(cv.identities.take(cv.identities.len() as int) =~= cv.identities);

        let mut networks: Vec<CertificateNetwork> = Vec::new();
        let mut i: usize = 0;
        while i < cs.networks.len()
            invariant
                cv == cs@,
                i <= cs.networks@.len(),
                networks@.len() == i,
                forall|j: int| 0 <= j < i ==> #[trigger] networks@[j] == network_from_capi(cs.networks@[j]),
            decreases cs.networks@.len() - i,
        {
            networks.push(CertificateNetwork::new_from_capi(&cs.networks[i]));
            i = i + 1;
        }

        let mut certificates: Vec<CertificateSerialNo> = Vec::new();
        let mut i: usize = 0;
        while i < cs.certificates.len()
            invariant
                cv == cs@,
                i <= cs.certificates@.len(),
                certificates@.len() == i,
                forall|j: int| 0 <= j < i ==> #[trigger] certificates@[j].bytes() == cs.certificates@[j]@,
            decreases cs.certificates@.len() - i,
        {
            certificates.push(CertificateSerialNo::from_array(&cs.certificates[i]));
            i = i + 1;
        }

        let mut update_urls: Vec<String> = Vec::new();
        let mut i: usize = 0;
        while i < cs.update_urls.len()
            invariant
                cv == cs@,
                i <= cs.update_urls@.len(),
                update_urls@.len() == i,
                forall|j: int| 0 <= j < i ==> #[trigger] update_urls@[j]@ == text_of_cstr(
                    cs.update_urls@[j]@,
                    CSTR_MAX_TEXT as nat,
                ),
            decreases cs.update_urls@.len() - i,
        {
            update_urls.push(cstr_to_string(cs.update_urls[i].as_slice(), CSTR_MAX_TEXT));
            i = i + 1;
        }

        let r = CertificateSubject {
            timestamp: cs.timestamp,
            identities,
            networks,
            certificates,
            updateURLs: update_urls,
            name: CertificateName::new_from_capi(&cs.name),
            uniqueId: copy_bytes(&cs.unique_id),
            uniqueIdProofSignature: copy_bytes(&cs.unique_id_proof_signature),
        };
        assert(r@.identities =~= subject_from_capi(cv).identities);
        assert(r@.networks =~= subject_from_capi(cv).networks);
        assert(r@.certificates =~= subject_from_capi(cv).certificates);
        assert(r@.update_urls =~= subject_from_capi(cv).update_urls);
        r
    }

    /// The engine record of this subject. A URL that holds a zero byte cannot
    /// be an engine string and is left out.
    pub fn to_capi(&self) -> (r: CapiSubject)
        ensures
            r@ == subject_to_capi(self@),
    {
        let ghost sv = self@;
        let mut identities: Vec<CapiIdentity> = Vec::new();
        let mut i: usize = 0;
        while i < self.identities.len()
            invariant
                sv == self@,
                i <= self.identities@.len(),
                identities@.len() == i,
                forall|j: int| 0 <= j < i ==> #[trigger] identities@[j]@ == identity_to_capi(self.identities@[j]@),
            decreases self.identities@.len() - i,
        {
            identities.push(self.identities[i].to_capi());
            i = i + 1;
        }

        let mut networks: Vec<CapiNetwork> = Vec::new();
        let mut i: usize = 0;
        while i < self.networks.len()
            invariant
                sv == self@,
                i <= self.networks@.len(),
                networks@.len() == i,
                forall|j: int| 0 <= j < i ==> #[trigger] networks@[j] == network_to_capi(self.networks@[j]),
            decreases self.networks@.len() - i,
        {
            networks.push(self.networks[i].to_capi());
            i = i + 1;
        }

        let mut certificates: Vec<[u8; 48]> = Vec::new();
        let mut i: usize = 0;
        while i < self.certificates.len()
            invariant
                sv == self@,
                i <= self.certificates@.len(),
                certificates@.len() == i,
                forall|j: int| 0 <= j < i ==> #[trigger] certificates@[j]@ == self.certificates@[j].bytes(),
            decreases self.certificates@.len() - i,
        {
            certificates.push(self.certificates[i].0);
            i = i + 1;
        }

        let mut update_urls: Vec<Vec<u8>> = Vec::new();
        let mut i: usize = 0;
        while i < self.updateURLs.len()
            invariant
                sv == self@,
                i <= self.updateURLs@.len(),
                update_urls@.len() == urls_to_capi(sv.update_urls.take(i as int)).len(),
                forall|j: int| 0 <= j < update_urls@.len() ==> #[trigger] update_urls@[j]@
                    == urls_to_capi(sv.update_urls.take(i as int))[j],
            decreases self.updateURLs@.len() - i,
        {
            let b: &[u8] = self.updateURLs[i].as_str().as_bytes();
            let mut k: usize = 0;
            let mut clean = true;
            while k < b.len()
                invariant
                    k <= b@.len(),
                    clean <==> (forall|j: int| 0 <= j < k ==> #[trigger] b@[j] != 0),
                decreases b@.len() - k,
            {
                if b[k] == 0 {
                    clean = false;
                }
                k = k + 1;
            }
            assert(sv.update_urls.take(i + 1).drop_last() =~= sv.update_urls.take(i as int));
            assert(sv.update_urls.take(i + 1).last() == self.updateURLs@[i as int]@);
            if clean {
                let v = copy_bytes_of(b);
                update_urls.push(v);
            }
            i = i + 1;
        }
        assert(sv.update_urls.take(sv.update_urls.len() as int) =~= sv.update_urls);

        let r = CapiSubject {
            timestamp: self.timestamp,
            identities,
            networks,
            certificates,
            update_urls,
            name: self.name.to_capi(),
            unique_id: copy_bytes(&self.uniqueId),
            unique_id_proof_signature: copy_bytes(&self.uniqueIdProofSignature),
        };
        assert(r@.identities =~= subject_to_capi(sv).identities);
        assert(r@.networks =~= subject_to_capi(sv).networks);
        assert(r@.certificates =~= subject_to_capi(sv).certificates);
        assert(r@.update_urls =~= subject_to_capi(sv).update_urls);
        r
    }
}

/// A new vector holding the bytes of `b`.
fn copy_bytes_of(b: &[u8]) -> (r: Vec<u8>)
    ensures
        r@ == b@,
{
    let r = crate::buffers::copy_prefix(b, b.len());
    assert(r@ =~= b@);
    r
}

/// Read back from their engine form, bindings come back unchanged.
proof fn lemma_identities_round_trip(s: Seq<CertificateIdentityView>)
    ensures
        identities_from_capi(s.map_values(|i: CertificateIdentityView| identity_to_capi(i))) == s,
    decreases s.len(),
{
    let m = s.map_values(|i: CertificateIdentityView| identity_to_capi(i));
    if s.len() > 0 {
        assert(m.drop_last() =~= s.drop_last().map_values(|i: CertificateIdentityView| identity_to_capi(i)));
        lemma_identities_round_trip(s.drop_last());
        lemma_identity_round_trip(s.last());
        assert(s.drop_last().push(s.last()) =~= s);
    } else {
        assert(s =~= Seq::<CertificateIdentityView>::empty());
    }
}

/// URLs that fit a field are all kept in the engine form, as their bytes.
proof fn lemma_urls_kept(u: Seq<Seq<char>>)
    requires
        forall|i: int| 0 <= i < u.len() ==> fits_field(#[trigger] u[i]),
    ensures
        urls_to_capi(u) == u.map_values(|x: Seq<char>| encode_utf8(x)),
    decreases u.len(),
{
    if u.len() > 0 {
        let d = u.drop_last();
        assert forall|i: int| 0 <= i < d.len() implies fits_field(#[trigger] d[i]) by {
            assert(d[i] == u[i]);
        }
        lemma_urls_kept(d);
        assert(fits_field(u[u.len() - 1]));
        assert(u.map_values(|x: Seq<char>| encode_utf8(x)) =~= d.map_values(|x: Seq<char>| encode_utf8(x)).push(
            encode_utf8(u.last()),
        ));
    } else {
        assert(u.map_values(|x: Seq<char>| encode_utf8(x)) =~= Seq::<Seq<u8>>::empty());
    }
}

/// A subject whose name fields and update URLs fit their engine buffers is
/// read back unchanged from its engine form.
pub proof fn lemma_subject_round_trip(s: SubjectView)
    requires
        subject_fits(s),
    ensures
        subject_from_capi(subject_to_capi(s)) == s,
{
    let c = subject_to_capi(s);
    let back = subject_from_capi(c);
    lemma_identities_round_trip(s.identities);
    lemma_name_round_trip(s.name);
    assert forall|i: int| 0 <= i < s.networks.len() implies #[trigger] back.networks[i] == s.networks[i] by {
        lemma_network_round_trip(s.networks[i]);
    }
    assert(back.networks =~= s.networks);
    lemma_urls_kept(s.update_urls);
    assert forall|i: int| 0 <= i < s.update_urls.len() implies #[trigger] back.update_urls[i]
        == s.update_urls[i] by {
        lemma_text_round_trip(s.update_urls[i]);
    }
    assert(back.update_urls =~= s.update_urls);
}

} // verus!
