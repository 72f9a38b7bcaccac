//! Certificate data model of a decentralised network-identity fabric: serial
//! numbers, unique-ID key pairs, names, subjects and certificates, their
//! engine-facing records, and the decisions taken around the cryptographic
//! engine's encode, decode, sign and verify operations.

mod buffers;
pub mod certificate;
pub mod error;
pub mod hexcodec;
pub mod identity;
pub mod ids;
pub mod name;
pub mod network;
pub mod result_code;
pub mod serial;
pub mod subject;
pub mod text;
pub mod unique_id;

pub use certificate::{CapiCertificate, Certificate};
pub use error::CertificateError;
pub use identity::{CapiIdentity, CertificateIdentity};
pub use ids::{Address, Fingerprint, Identity, Locator, NetworkId};
pub use name::{CapiName, CertificateName};
pub use network::{CapiFingerprint, CapiNetwork, CertificateNetwork};
pub use result_code::ResultCode;
pub use serial::CertificateSerialNo;
pub use subject::{CapiSubject, CertificateSubject};
pub use unique_id::{CertificateSubjectUniqueIdSecret, CertificateUniqueIdType};
