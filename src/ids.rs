use vstd::prelude::*;

use crate::buffers::copy_bytes;

verus! {

/// A 64-bit network identifier.
#[derive(Clone, Copy, Debug, PartialEq, Eq, Structural)]
pub struct NetworkId(pub u64);

/// A node address.
#[derive(Clone, Copy, Debug, PartialEq, Eq, Structural)]
pub struct Address(pub u64);

/// A specific version of an identity: its address and a hash of its keys.
#[derive(Clone, Copy, Debug, PartialEq, Eq)]
pub struct Fingerprint {
    pub address: Address,
    pub hash: [u8; 48],
}

/// A cryptographic identity, held as the key material that the identity
/// collaborator encodes: its public part and its private part, which is empty
/// where the identity can verify but not sign.
pub struct Identity {
    pub public: Vec<u8>,
    pub private: Vec<u8>,
}

/// Value of an identity: its public and its private part.
pub struct IdentityView {
    pub public: Seq<u8>,
    pub private: Seq<u8>,
}

impl View for Identity {
    type V = IdentityView;

    open spec fn view(&self) -> IdentityView {
        IdentityView { public: self.public@, private: self.private@ }
    }
}

impl Identity {
    /// Whether the identity holds a private key, and so can sign.
    pub open spec fn has_private_spec(&self) -> bool {
        self.private@.len() > 0
    }

    /// Whether the identity holds a private key, and so can sign.
    pub fn has_private(&self) -> (r: bool)
        ensures
            r == self.has_private_spec(),
    {
        self.private.len() > 0
    }

    /// An identity equal to this one.
    pub fn duplicate(&self) -> (r: Identity)
        ensures
            r@ == self@,
    {
        Identity {
            public: copy_bytes(&self.public),
            private: copy_bytes(&self.private),
        }
    }
}

/// A signed record of where a node can be reached, held in the encoded form
/// that the locator collaborator reads and writes.
pub struct Locator {
    pub bytes: Vec<u8>,
}

impl View for Locator {
    type V = Seq<u8>;

    open spec fn view(&self) -> Seq<u8> {
        self.bytes@
    }
}

impl Locator {
    /// A locator equal to this one.
    pub fn duplicate(&self) -> (r: Locator)
        ensures
            r@ == self@,
    {
        Locator { bytes: copy_bytes(&self.bytes) }
    }
}

} // verus!
