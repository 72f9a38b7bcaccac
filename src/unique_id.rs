use vstd::prelude::*;

use crate::buffers::copy_prefix;
use crate::result_code::ResultCode;

verus! {

/// Length of a NIST P-384 unique ID (public key).
pub const CERTIFICATE_UNIQUE_ID_TYPE_NIST_P_384_SIZE: u32 = 50;

/// Length of a private key corresponding to a NIST P-384 unique ID.
pub const CERTIFICATE_UNIQUE_ID_TYPE_NIST_P_384_PRIVATE_SIZE: u32 = 48;

/// Engine code of the NIST P-384 unique-ID type.
pub const CERTIFICATE_UNIQUE_ID_TYPE_NIST_P_384: u32 = 1;

/// Size of each scratch buffer handed to the engine's key generation: no
/// half of a unique-ID key pair may be longer.
pub const CERTIFICATE_UNIQUE_ID_CREATE_BUF_SIZE: usize = 128;

/// ASCII letters folded to lower case, as code points; other characters are
/// left as they are.
pub open spec fn ascii_fold(c: char) -> u32 {
    if 'A' <= c <= 'Z' {
        (c as u32 + 32) as u32
    } else {
        c as u32
    }
}

/// Whether `a` and `b` are equal when ASCII letters are compared without case.
pub open spec fn eq_ignore_ascii_case(a: Seq<char>, b: Seq<char>) -> bool {
    &&& a.len() == b.len()
    &&& forall|i: int| 0 <= i < a.len() ==> ascii_fold(#[trigger] a[i]) == ascii_fold(b[i])
}

/// Type of certificate subject unique ID.
#[derive(Clone, Copy, Debug, PartialEq, Eq, Structural)]
pub enum CertificateUniqueIdType {
    NistP384,
}

impl CertificateUniqueIdType {
    /// The textual name of the type.
    pub open spec fn name(&self) -> Seq<char> {
        match self {
            CertificateUniqueIdType::NistP384 => "NistP384"@,
        }
    }

    /// Declared length of the public half (the unique ID itself).
    pub open spec fn public_size(&self) -> nat {
        match self {
            CertificateUniqueIdType::NistP384 => CERTIFICATE_UNIQUE_ID_TYPE_NIST_P_384_SIZE as nat,
        }
    }

    /// Declared length of the private half.
    pub open spec fn private_size(&self) -> nat {
        match self {
            CertificateUniqueIdType::NistP384 => CERTIFICATE_UNIQUE_ID_TYPE_NIST_P_384_PRIVATE_SIZE as nat,
        }
    }

    /// The engine's code for the type.
    pub open spec fn code_spec(&self) -> u32 {
        match self {
            CertificateUniqueIdType::NistP384 => CERTIFICATE_UNIQUE_ID_TYPE_NIST_P_384,
        }
    }

    /// Parse a type from its name, ignoring ASCII case.
    pub fn new_from_string(s: &str) -> (r: Result<CertificateUniqueIdType, ResultCode>)
        ensures
            r is Ok <==> eq_ignore_ascii_case(s@, "NistP384"@),
            r matches Ok(t) ==> t == CertificateUniqueIdType::NistP384,
            r matches Err(e) ==> e == ResultCode::ErrorBadParameter,
    {
        let target = "nistp384";
        proof {
            reveal_strlit("nistp384");
            reveal_strlit("NistP384");
        }
        assert(forall|j: int| 0 <= j < 8 ==> ascii_fold(#[trigger] "NistP384"@[j]) == "nistp384"@[j] as u32);
        let n = s.unicode_len();
        if n != 8 {
            return Err(ResultCode::ErrorBadParameter);
        }
        let mut i: usize = 0;
        while i < 8
            invariant
                s@.len() == 8,
                target@ == "nistp384"@,
                "nistp384"@.len() == 8,
                "NistP384"@.len() == 8,
                forall|j: int| 0 <= j < 8 ==> ascii_fold(#[trigger] "NistP384"@[j]) == "nistp384"@[j] as u32,
                i <= 8,
                forall|j: int| 0 <= j < i ==> ascii_fold(#[trigger] s@[j]) == ascii_fold("NistP384"@[j]),
            decreases 8 - i,
        {
            let c = s.get_char(i);
            let t = target.get_char(i);
            let folded: u32 = if 'A' <= c && c <= 'Z' {
                c as u32 + 32
            } else {
                c as u32
            };
            if folded != t as u32 {
                assert(ascii_fold(s@[i as int]) != ascii_fold("NistP384"@[i as int]));
                return Err(ResultCode::ErrorBadParameter);
            }
            i = i + 1;
        }
        Ok(CertificateUniqueIdType::NistP384)
    }

    /// The textual name of the type.
    pub fn to_string(&self) -> (r: String)
        ensures
            r@ == self.name(),
    {
        match self {
            CertificateUniqueIdType::NistP384 => "NistP384".to_owned(),
        }
    }

    /// The engine's code for the type.
    pub fn code(&self) -> (r: u32)
        ensures
            r == self.code_spec(),
    {
        match self {
            CertificateUniqueIdType::NistP384 => CERTIFICATE_UNIQUE_ID_TYPE_NIST_P_384,
        }
    }

    /// The type that the engine code `c` stands for, if any.
    pub fn from_code(c: u32) -> (r: Option<CertificateUniqueIdType>)
        ensures
            r matches Some(t) ==> t.code_spec() == c,
            r is None <==> (forall|t: CertificateUniqueIdType| t.code_spec() != c),
    {
        if c == CERTIFICATE_UNIQUE_ID_TYPE_NIST_P_384 {
            Some(CertificateUniqueIdType::NistP384)
        } else {
            proof {
                assert forall|t: CertificateUniqueIdType| t.code_spec() != c by {
                    match t {
                        CertificateUniqueIdType::NistP384 => {},
                    }
                }
            }
            None
        }
    }

    /// Declared length of the public half.
    pub fn public_key_size(&self) -> (r: usize)
        ensures
            r == self.public_size(),
    {
        match self {
            CertificateUniqueIdType::NistP384 => CERTIFICATE_UNIQUE_ID_TYPE_NIST_P_384_SIZE as usize,
        }
    }

    /// Declared length of the private half.
    pub fn private_key_size(&self) -> (r: usize)
        ensures
            r == self.private_size(),
    {
        match self {
            CertificateUniqueIdType::NistP384 => CERTIFICATE_UNIQUE_ID_TYPE_NIST_P_384_PRIVATE_SIZE as usize,
        }
    }
}

/// Every type's declared sizes fit the key-generation buffers.
pub proof fn lemma_type_sizes_fit(t: CertificateUniqueIdType)
    ensures
        t.public_size() <= CERTIFICATE_UNIQUE_ID_CREATE_BUF_SIZE,
        t.private_size() <= CERTIFICATE_UNIQUE_ID_CREATE_BUF_SIZE,
{
}

/// A unique-ID key pair: the public half is embedded in a subject, the private
/// half proves possession of it once and stays with the caller.
pub struct CertificateSubjectUniqueIdSecret {
    pub public: Vec<u8>,
    pub private: Vec<u8>,
    pub type_: CertificateUniqueIdType,
}

impl CertificateSubjectUniqueIdSecret {
    /// Both halves have the lengths that the type declares.
    pub open spec fn wf(&self) -> bool {
        &&& self.public@.len() == self.type_.public_size()
        &&& self.private@.len() == self.type_.private_size()
    }

    /// The key pair that the engine's key generation for type `t` reported:
    /// `status` is its return code and `public_size` / `private_size` the
    /// lengths it wrote into the two buffers. The pair is taken only when the
    /// engine succeeded and both lengths are the ones the type declares;
    /// anything else is an engine fault.
    pub fn from_generated(
        t: CertificateUniqueIdType,
        status: i32,
        public_buf: &[u8],
        public_size: i32,
        private_buf: &[u8],
        private_size: i32,
    ) -> (r: Result<CertificateSubjectUniqueIdSecret, ResultCode>)
        ensures
            r is Ok <==> {
                &&& status == 0
                &&& public_size == t.public_size()
                &&& private_size == t.private_size()
                &&& public_size <= public_buf@.len()
                &&& private_size <= private_buf@.len()
            },
            r matches Ok(u) ==> {
                &&& u.wf()
                &&& u.type_ == t
                &&& u.public@ == public_buf@.subrange(0, public_size as int)
                &&& u.private@ == private_buf@.subrange(0, private_size as int)
            },
            r matches Err(e) ==> e == ResultCode::FatalErrorInternal,
    {
        if status != 0 {
            return Err(ResultCode::FatalErrorInternal);
        }
        if public_size < 0 || private_size < 0 {
            return Err(ResultCode::FatalErrorInternal);
        }
        let pl = public_size as usize;
        let sl = private_size as usize;
        if pl != t.public_key_size() || sl != t.private_key_size() || pl > public_buf.len()
            || sl > private_buf.len() {
            return Err(ResultCode::FatalErrorInternal);
        }
        Ok(CertificateSubjectUniqueIdSecret {
            public: copy_prefix(public_buf, pl),
            private: copy_prefix(private_buf, sl),
            type_: t,
        })
    }
}

} // verus!
