use zerotier_core::certificate::engine_output;
use zerotier_core::text::{cstr_to_string, str_to_cert_cstr};
use zerotier_core::{
    Address, CapiCertificate, CapiIdentity, CapiName, CapiNetwork, CapiSubject, Certificate, CertificateError,
    CertificateIdentity, CertificateName, CertificateNetwork, CertificateSerialNo, CertificateSubject,
    CertificateSubjectUniqueIdSecret, CertificateUniqueIdType, Fingerprint, Identity, Locator, NetworkId,
    ResultCode,
};

fn counting_bytes(n: usize) -> Vec<u8> {
    (0..n).map(|i| (i * 7 + 3) as u8).collect()
}

fn name_with_common(cn: &str) -> CertificateName {
    let mut n = CertificateName::new();
    n.commonName = cn.to_string();
    n
}

fn empty_subject(cn: &str) -> CertificateSubject {
    CertificateSubject {
        timestamp: 1234,
        identities: Vec::new(),
        networks: Vec::new(),
        certificates: Vec::new(),
        updateURLs: Vec::new(),
        name: name_with_common(cn),
        uniqueId: Vec::new(),
        uniqueIdProofSignature: Vec::new(),
    }
}

fn sample_identity(private: bool) -> Identity {
    Identity { public: vec![1, 2, 3, 4], private: if private { vec![9, 8, 7] } else { Vec::new() } }
}

fn sample_certificate() -> Certificate {
    let mut subject = empty_subject("node");
    subject.identities.push(CertificateIdentity {
        identity: sample_identity(false),
        locator: Some(Locator { bytes: vec![5, 6] }),
    });
    subject.networks.push(CertificateNetwork {
        id: NetworkId(0x8056c2e21c000001),
        controller: Fingerprint { address: Address(0x8056c2e21c), hash: [7u8; 48] },
    });
    subject.certificates.push(CertificateSerialNo([3u8; 48]));
    subject.updateURLs.push("https://example.com/update".to_string());
    subject.uniqueId = vec![1u8; 50];
    subject.uniqueIdProofSignature = vec![2u8; 96];
    let mut issuer_name = CertificateName::new();
    issuer_name.organization = "Example Org".to_string();
    issuer_name.country = "US".to_string();
    Certificate {
        serialNo: CertificateSerialNo([0x11u8; 48]),
        flags: 1,
        timestamp: 1000,
        validity: [900, 2000],
        subject,
        issuer: sample_identity(false),
        issuerName: issuer_name,
        extendedAttributes: vec![0xde, 0xad],
        maxPathLength: 3,
        crl: vec![CertificateSerialNo([0x22u8; 48]), CertificateSerialNo([0x33u8; 48])],
        signature: vec![0x44u8; 10],
    }
}

fn assert_names_equal(a: &CertificateName, b: &CertificateName) {
    assert_eq!(a.serialNo, b.serialNo);
    assert_eq!(a.commonName, b.commonName);
    assert_eq!(a.country, b.country);
    assert_eq!(a.organization, b.organization);
    assert_eq!(a.unit, b.unit);
    assert_eq!(a.locality, b.locality);
    assert_eq!(a.province, b.province);
    assert_eq!(a.streetAddress, b.streetAddress);
    assert_eq!(a.postalCode, b.postalCode);
    assert_eq!(a.email, b.email);
    assert_eq!(a.url, b.url);
    assert_eq!(a.host, b.host);
}

#[test]
fn serial_new_is_all_zero() {
    let s = CertificateSerialNo::new();
    assert_eq!(s.0, [0u8; 48]);
}

#[test]
fn serial_from_long_slice_keeps_first_48() {
    let v = counting_bytes(60);
    let s = CertificateSerialNo::from_slice(&v);
    assert_eq!(&s.0[..], &v[..48]);
}

#[test]
fn serial_from_short_slice_pads_with_zeros() {
    let v = counting_bytes(10);
    let s = CertificateSerialNo::from_slice(&v);
    assert_eq!(&s.0[..10], &v[..]);
    assert!(s.0[10..].iter().all(|b| *b == 0));
}

#[test]
fn serial_from_exact_array() {
    let mut a = [0u8; 48];
    a[0] = 0xff;
    a[47] = 0x01;
    assert_eq!(CertificateSerialNo::from_array(&a).0, a);
}

#[test]
fn serial_to_string_is_lowercase_hex() {
    let mut a = [0u8; 48];
    a[0] = 0xab;
    a[1] = 0x01;
    a[47] = 0xf0;
    let t = CertificateSerialNo(a).to_string();
    assert_eq!(t.len(), 96);
    let mut expected = String::from("ab01");
    expected.push_str(&"0".repeat(90));
    expected.push_str("f0");
    assert_eq!(t, expected);
}

#[test]
fn serial_hex_round_trip() {
    let mut a = [0u8; 48];
    for (i, b) in a.iter_mut().enumerate() {
        *b = (i * 37 + 11) as u8;
    }
    let s = CertificateSerialNo(a);
    let back = CertificateSerialNo::new_from_string(&s.to_string()).unwrap();
    assert_eq!(back.0, a);
}

#[test]
fn serial_from_short_uppercase_text_pads() {
    let s = CertificateSerialNo::new_from_string("AbCd").unwrap();
    assert_eq!(s.0[0], 0xab);
    assert_eq!(s.0[1], 0xcd);
    assert!(s.0[2..].iter().all(|b| *b == 0));
}

#[test]
fn serial_from_long_text_is_clamped() {
    let text = "01".repeat(50);
    let s = CertificateSerialNo::new_from_string(&text).unwrap();
    assert_eq!(s.0, [1u8; 48]);
}

#[test]
fn serial_from_bad_text_is_refused() {
    assert_eq!(CertificateSerialNo::new_from_string("xyz1").unwrap_err(), ResultCode::ErrorBadParameter);
    assert_eq!(CertificateSerialNo::new_from_string("abc").unwrap_err(), ResultCode::ErrorBadParameter);
    assert_eq!(CertificateSerialNo::new_from_string("").unwrap().0, [0u8; 48]);
}

#[test]
fn unique_id_type_parses_ignoring_case() {
    for t in ["nistp384", "NISTP384", "NistP384", "nIsTp384"] {
        assert_eq!(CertificateUniqueIdType::new_from_string(t).unwrap(), CertificateUniqueIdType::NistP384);
    }
    for t in ["", "nistp385", "nistp3844", "nist p384", "nistp38"] {
        assert_eq!(CertificateUniqueIdType::new_from_string(t).unwrap_err(), ResultCode::ErrorBadParameter);
    }
}

#[test]
fn unique_id_type_text_and_sizes() {
    let t = CertificateUniqueIdType::NistP384;
    assert_eq!(t.to_string(), "NistP384");
    assert_eq!(t.public_key_size(), 50);
    assert_eq!(t.private_key_size(), 48);
    assert_eq!(CertificateUniqueIdType::from_code(t.code()), Some(t));
    assert_eq!(CertificateUniqueIdType::from_code(77), None);
}

#[test]
fn unique_id_secret_from_engine_output() {
    let public = counting_bytes(128);
    let private: Vec<u8> = counting_bytes(128).iter().map(|b| b ^ 0x5a).collect();
    let t = CertificateUniqueIdType::NistP384;
    let s = CertificateSubjectUniqueIdSecret::from_generated(t, 0, &public, 50, &private, 48).unwrap();
    assert_eq!(s.public, public[..50].to_vec());
    assert_eq!(s.private, private[..48].to_vec());
    assert_eq!(s.type_, t);
}

#[test]
fn unique_id_secret_engine_faults() {
    let buf = vec![0u8; 128];
    let t = CertificateUniqueIdType::NistP384;
    let fatal = Err(ResultCode::FatalErrorInternal);
    assert_eq!(CertificateSubjectUniqueIdSecret::from_generated(t, -1, &buf, 50, &buf, 48).map(|_| ()), fatal);
    assert_eq!(CertificateSubjectUniqueIdSecret::from_generated(t, 0, &buf, 49, &buf, 48).map(|_| ()), fatal);
    assert_eq!(CertificateSubjectUniqueIdSecret::from_generated(t, 0, &buf, 50, &buf, 200).map(|_| ()), fatal);
    assert_eq!(CertificateSubjectUniqueIdSecret::from_generated(t, 0, &buf[..10], 50, &buf, 48).map(|_| ()), fatal);
    assert_eq!(CertificateSubjectUniqueIdSecret::from_generated(t, 0, &buf, -50, &buf, 48).map(|_| ()), fatal);
}

#[test]
fn certificate_error_codes() {
    assert_eq!(CertificateError::from_code(0), CertificateError::NoError);
    assert_eq!(CertificateError::from_code(1), CertificateError::HaveNewerCert);
    assert_eq!(CertificateError::from_code(-1), CertificateError::InvalidFormat);
    assert_eq!(CertificateError::from_code(-6), CertificateError::InvalidUniqueIdProof);
    assert_eq!(CertificateError::from_code(-8), CertificateError::OutOfValidTimeWindow);
    assert_eq!(CertificateError::from_code(42), CertificateError::InvalidFormat);
    assert_eq!(CertificateError::from_code(-9), CertificateError::InvalidFormat);
    let all = [
        CertificateError::NoError,
        CertificateError::HaveNewerCert,
        CertificateError::InvalidFormat,
        CertificateError::InvalidIdentity,
        CertificateError::InvalidPrimarySignature,
        CertificateError::InvalidChain,
        CertificateError::InvalidComponentSignature,
        CertificateError::InvalidUniqueIdProof,
        CertificateError::MissingRequiredFields,
        CertificateError::OutOfValidTimeWindow,
    ];
    for e in all {
        assert_eq!(CertificateError::from_code(e.code()), e);
    }
}

#[test]
fn certificate_error_names() {
    assert_eq!(CertificateError::NoError.to_string(), "None");
    assert_eq!(CertificateError::InvalidChain.to_string(), "InvalidChain");
    assert_eq!(CertificateError::OutOfValidTimeWindow.to_string(), "OutOfValidTimeWindow");
    assert_eq!(CertificateError::InvalidUniqueIdProof.to_string(), "InvalidUniqueIdProof");
}

#[test]
fn name_field_longer_than_126_bytes_is_cut() {
    let long = "a".repeat(200);
    let buf = str_to_cert_cstr(&long);
    assert!(buf[..126].iter().all(|b| *b == b'a'));
    assert_eq!(buf[126], 0);
    assert_eq!(buf[127], 0);
    let n = name_with_common(&long);
    let c = n.to_capi();
    assert_eq!(c.common_name, buf);
    assert_eq!(CertificateName::new_from_capi(&c).commonName, "a".repeat(126));
}

#[test]
fn empty_name_field_is_terminator_only() {
    let buf = str_to_cert_cstr(&String::new());
    assert_eq!(buf, [0u8; 128]);
    let n = name_with_common("x");
    assert_eq!(n.to_capi().host, [0u8; 128]);
}

#[test]
fn name_field_of_exactly_126_bytes_is_kept() {
    let t = "z".repeat(126);
    let buf = str_to_cert_cstr(&t);
    assert_eq!(&buf[..126], t.as_bytes());
    assert_eq!(buf[126], 0);
}

#[test]
fn name_round_trip_through_engine_form() {
    let mut n = CertificateName::new();
    n.serialNo = "42".to_string();
    n.commonName = "Grüße".to_string();
    n.country = "DE".to_string();
    n.email = "a@example.com".to_string();
    n.host = "host.example".to_string();
    let back = CertificateName::new_from_capi(&n.to_capi());
    assert_names_equal(&back, &n);
}

#[test]
fn engine_string_reading() {
    assert_eq!(cstr_to_string(b"abc\0def", 126), "abc");
    assert_eq!(cstr_to_string(b"abcdef", 4), "abcd");
    assert_eq!(cstr_to_string(&[0xff, 0xfe, 0x41], 126), "");
    assert_eq!(cstr_to_string(b"", 126), "");
}

#[test]
fn network_round_trip_through_engine_form() {
    let n = CertificateNetwork {
        id: NetworkId(0x1234),
        controller: Fingerprint { address: Address(0x99), hash: [5u8; 48] },
    };
    let c = n.to_capi();
    assert_eq!(c.id, 0x1234);
    assert_eq!(c.controller.address, 0x99);
    assert_eq!(CertificateNetwork::new_from_capi(&c), n);
}

#[test]
fn empty_subject_scenario() {
    let s = empty_subject("test");
    let c = s.to_capi();
    assert!(c.identities.is_empty() && c.networks.is_empty());
    assert!(c.certificates.is_empty() && c.update_urls.is_empty());
    let back = CertificateSubject::new_from_capi(&c);
    assert_eq!(back.name.commonName, "test");
    assert!(back.identities.is_empty());
    assert!(back.networks.is_empty());
    assert!(back.certificates.is_empty());
    assert!(back.updateURLs.is_empty());
    assert!(back.uniqueId.is_empty() && back.uniqueIdProofSignature.is_empty());
    assert_eq!(back.timestamp, 1234);
}

#[test]
fn subject_url_with_zero_byte_is_left_out() {
    let mut s = empty_subject("u");
    s.updateURLs.push("https://a".to_string());
    s.updateURLs.push("bad\0url".to_string());
    s.updateURLs.push("https://b".to_string());
    let c = s.to_capi();
    assert_eq!(c.update_urls, vec![b"https://a".to_vec(), b"https://b".to_vec()]);
}

#[test]
fn subject_record_without_identity_is_skipped() {
    let c = CapiSubject {
        timestamp: 5,
        identities: vec![
            CapiIdentity { identity: None, locator: None },
            CapiIdentity { identity: Some(sample_identity(true)), locator: None },
        ],
        networks: vec![CapiNetwork { id: 7, controller: zerotier_core::CapiFingerprint { address: 8, hash: [1u8; 48] } }],
        certificates: vec![[9u8; 48]],
        update_urls: vec![b"https://x\0ignored".to_vec()],
        name: CertificateName::new().to_capi(),
        unique_id: vec![1, 2],
        unique_id_proof_signature: vec![3],
    };
    let s = CertificateSubject::new_from_capi(&c);
    assert_eq!(s.identities.len(), 1);
    assert_eq!(s.identities[0].identity.private, vec![9, 8, 7]);
    assert!(s.identities[0].locator.is_none());
    assert_eq!(s.networks[0].id, NetworkId(7));
    assert_eq!(s.certificates[0].0, [9u8; 48]);
    assert_eq!(s.updateURLs, vec!["https://x".to_string()]);
    assert_eq!(s.uniqueId, vec![1, 2]);
}

#[test]
fn identity_binding_from_empty_record_is_none() {
    let c = CapiIdentity { identity: None, locator: Some(Locator { bytes: vec![1] }) };
    assert!(CertificateIdentity::new_from_capi(&c).is_none());
    let b = CertificateIdentity { identity: sample_identity(false), locator: Some(Locator { bytes: vec![4] }) };
    let back = CertificateIdentity::new_from_capi(&b.to_capi()).unwrap();
    assert_eq!(back.identity.public, vec![1, 2, 3, 4]);
    assert_eq!(back.locator.unwrap().bytes, vec![4]);
}

#[test]
fn certificate_round_trip_through_engine_form() {
    let c = sample_certificate();
    let back = Certificate::new_from_capi(&c.to_capi());
    assert_eq!(back.serialNo, c.serialNo);
    assert_eq!(back.flags, c.flags);
    assert_eq!(back.timestamp, c.timestamp);
    assert_eq!(back.validity, c.validity);
    assert_eq!(back.issuer.public, c.issuer.public);
    assert_names_equal(&back.issuerName, &c.issuerName);
    assert_eq!(back.extendedAttributes, c.extendedAttributes);
    assert_eq!(back.maxPathLength, c.maxPathLength);
    assert_eq!(back.crl, c.crl);
    assert_eq!(back.signature, c.signature);
    assert_eq!(back.subject.networks, c.subject.networks);
    assert_eq!(back.subject.certificates, c.subject.certificates);
    assert_eq!(back.subject.updateURLs, c.subject.updateURLs);
    assert_eq!(back.subject.uniqueId, c.subject.uniqueId);
    assert_eq!(back.subject.uniqueIdProofSignature, c.subject.uniqueIdProofSignature);
    assert_eq!(back.subject.identities.len(), 1);
    assert_eq!(back.subject.identities[0].locator.as_ref().unwrap().bytes, vec![5, 6]);
    assert_names_equal(&back.subject.name, &c.subject.name);
}

#[test]
fn certificate_record_skips_absent_revocations() {
    let mut rec: CapiCertificate = sample_certificate().to_capi();
    rec.crl = vec![None, Some([0x55u8; 48]), None];
    let c = Certificate::new_from_capi(&rec);
    assert_eq!(c.crl, vec![CertificateSerialNo([0x55u8; 48])]);
}

#[test]
fn engine_output_is_trimmed() {
    let mut buf = vec![0u8; 16384];
    buf[..4].copy_from_slice(&[1, 2, 3, 4]);
    assert_eq!(engine_output(0, &buf, 3, ResultCode::ErrorInternalNonFatal), Ok(vec![1, 2, 3]));
    assert_eq!(engine_output(0, &buf, 0, ResultCode::ErrorInternalNonFatal), Ok(Vec::new()));
}

#[test]
fn engine_output_failures() {
    let buf = vec![0u8; 16];
    assert_eq!(engine_output(-1, &buf, 3, ResultCode::ErrorInternalNonFatal), Err(ResultCode::ErrorInternalNonFatal));
    assert_eq!(engine_output(0, &buf, 17, ResultCode::ErrorBadParameter), Err(ResultCode::ErrorBadParameter));
    assert_eq!(engine_output(0, &buf, -1, ResultCode::ErrorBadParameter), Err(ResultCode::ErrorBadParameter));
}

#[test]
fn sign_without_private_key_is_refused() {
    let c = sample_certificate();
    let r = c.sign_request(&sample_identity(false));
    assert_eq!(r.map(|_| ()), Err(ResultCode::ErrorBadParameter));
    let rec = c.sign_request(&sample_identity(true)).unwrap();
    assert_eq!(rec.serial_no, [0x11u8; 48]);
    assert_eq!(rec.validity, [900, 2000]);
}

#[test]
fn decode_result_mapping() {
    let rec = sample_certificate().to_capi();
    let e = |code: i32, d: Option<&CapiCertificate>| Certificate::from_decode_result(code, d).map(|_| ()).unwrap_err();
    assert_eq!(e(-8, Some(&rec)), CertificateError::OutOfValidTimeWindow);
    assert_eq!(e(1, None), CertificateError::HaveNewerCert);
    assert_eq!(e(0, None), CertificateError::InvalidFormat);
    assert_eq!(e(99, None), CertificateError::InvalidFormat);
    let ok = Certificate::from_decode_result(0, Some(&rec)).unwrap();
    assert_eq!(ok.timestamp, 1000);
    assert_eq!(ok.subject.name.commonName, "node");
}

#[test]
fn identity_private_key_presence() {
    assert!(sample_identity(true).has_private());
    assert!(!sample_identity(false).has_private());
}
