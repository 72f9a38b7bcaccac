use vstd::prelude::*;

verus! {

/// Engine code of a certificate that passed every check.
pub const CERTIFICATE_ERROR_NONE: i32 = 0;

/// Reasons a certificate may be rejected; `NoError` means that it was accepted.
#[derive(Clone, Copy, Debug, PartialEq, Eq, Structural)]
pub enum CertificateError {
    NoError,
    HaveNewerCert,
    InvalidFormat,
    InvalidIdentity,
    InvalidPrimarySignature,
    InvalidChain,
    InvalidComponentSignature,
    InvalidUniqueIdProof,
    MissingRequiredFields,
    OutOfValidTimeWindow,
}

/// The engine's numeric code for each kind.
pub open spec fn code_of(e: CertificateError) -> int {
    match e {
        CertificateError::NoError => 0,
        CertificateError::HaveNewerCert => 1,
        CertificateError::InvalidFormat => -1,
        CertificateError::InvalidIdentity => -2,
        CertificateError::InvalidPrimarySignature => -3,
        CertificateError::InvalidChain => -4,
        CertificateError::InvalidComponentSignature => -5,
        CertificateError::InvalidUniqueIdProof => -6,
        CertificateError::MissingRequiredFields => -7,
        CertificateError::OutOfValidTimeWindow => -8,
    }
}

/// The kind that an engine code stands for; a code that stands for no kind is
/// taken as `InvalidFormat`, never as success.
pub open spec fn error_of_code(c: int) -> CertificateError {
    if c == 0 {
        CertificateError::NoError
    } else if c == 1 {
        CertificateError::HaveNewerCert
    } else if c == -2 {
        CertificateError::InvalidIdentity
    } else if c == -3 {
        CertificateError::InvalidPrimarySignature
    } else if c == -4 {
        CertificateError::InvalidChain
    } else if c == -5 {
        CertificateError::InvalidComponentSignature
    } else if c == -6 {
        CertificateError::InvalidUniqueIdProof
    } else if c == -7 {
        CertificateError::MissingRequiredFields
    } else if c == -8 {
        CertificateError::OutOfValidTimeWindow
    } else {
        CertificateError::InvalidFormat
    }
}

/// The name of each kind, as text.
pub open spec fn error_name(e: CertificateError) -> Seq<char> {
    match e {
        CertificateError::NoError => "None"@,
        CertificateError::HaveNewerCert => "HaveNewerCert"@,
        CertificateError::InvalidFormat => "InvalidFormat"@,
        CertificateError::InvalidIdentity => "InvalidIdentity"@,
        CertificateError::InvalidPrimarySignature => "InvalidPrimarySignature"@,
        CertificateError::InvalidChain => "InvalidChain"@,
        CertificateError::InvalidComponentSignature => "InvalidComponentSignature"@,
        CertificateError::InvalidUniqueIdProof => "InvalidUniqueIdProof"@,
        CertificateError::MissingRequiredFields => "MissingRequiredFields"@,
        CertificateError::OutOfValidTimeWindow => "OutOfValidTimeWindow"@,
    }
}

impl CertificateError {
    /// The kind that the engine reported as `c`; unknown codes give
    /// `InvalidFormat`.
    pub fn from_code(c: i32) -> (r: CertificateError)
        ensures
            r == error_of_code(c as int),
            c == CERTIFICATE_ERROR_NONE <==> r == CertificateError::NoError,
    {
        if c == 0 {
            CertificateError::NoError
        } else if c == 1 {
            CertificateError::HaveNewerCert
        } else if c == -2 {
            CertificateError::InvalidIdentity
        } else if c == -3 {
            CertificateError::InvalidPrimarySignature
        } else if c == -4 {
            CertificateError::InvalidChain
        } else if c == -5 {
            CertificateError::InvalidComponentSignature
        } else if c == -6 {
            CertificateError::InvalidUniqueIdProof
        } else if c == -7 {
            CertificateError::MissingRequiredFields
        } else if c == -8 {
            CertificateError::OutOfValidTimeWindow
        } else {
            CertificateError::InvalidFormat
        }
    }

    /// The engine's code for this kind.
    pub fn code(&self) -> (r: i32)
        ensures
            r as int == code_of(*self),
    {
        match self {
            CertificateError::NoError => 0,
            CertificateError::HaveNewerCert => 1,
            CertificateError::InvalidFormat => -1,
            CertificateError::InvalidIdentity => -2,
            CertificateError::InvalidPrimarySignature => -3,
            CertificateError::InvalidChain => -4,
            CertificateError::InvalidComponentSignature => -5,
            CertificateError::InvalidUniqueIdProof => -6,
            CertificateError::MissingRequiredFields => -7,
            CertificateError::OutOfValidTimeWindow => -8,
        }
    }

    /// The name of this kind, as text.
    pub fn to_string(&self) -> (r: String)
        ensures
            r@ == error_name(*self),
    {
        let s: &str = match self {
            CertificateError::NoError => "None",
            CertificateError::HaveNewerCert => "HaveNewerCert",
            CertificateError::InvalidFormat => "InvalidFormat",
            CertificateError::InvalidIdentity => "InvalidIdentity",
            CertificateError::InvalidPrimarySignature => "InvalidPrimarySignature",
            CertificateError::InvalidChain => "InvalidChain",
            CertificateError::InvalidComponentSignature => "InvalidComponentSignature",
            CertificateError::InvalidUniqueIdProof => "InvalidUniqueIdProof",
            CertificateError::MissingRequiredFields => "MissingRequiredFields",
            CertificateError::OutOfValidTimeWindow => "OutOfValidTimeWindow",
        };
        s.to_owned()
    }
}

/// Each kind's code maps back to that kind, and no code but the kind `NoError`'s
/// stands for success.
pub proof fn lemma_code_round_trip(e: CertificateError, c: int)
    ensures
        error_of_code(code_of(e)) == e,
        error_of_code(c) == CertificateError::NoError <==> c == CERTIFICATE_ERROR_NONE,
{
}

} // verus!
