use vstd::prelude::*;

use crate::ids::{Address, Fingerprint, NetworkId};

verus! {

/// Engine-facing form of a fingerprint.
#[derive(Clone, Copy, Debug, PartialEq, Eq)]
pub struct CapiFingerprint {
    pub address: u64,
    pub hash: [u8; 48],
}

/// Engine-facing form of a network membership.
#[derive(Clone, Copy, Debug, PartialEq, Eq)]
pub struct CapiNetwork {
    pub id: u64,
    pub controller: CapiFingerprint,
}

/// A network that a subject is a member of, and the controller that vouches
/// for it.
#[derive(Clone, Copy, Debug, PartialEq, Eq)]
pub struct CertificateNetwork {
    pub id: NetworkId,
    pub controller: Fingerprint,
}

/// The membership that an engine record describes.
pub open spec fn network_from_capi(c: CapiNetwork) -> CertificateNetwork {
    CertificateNetwork {
        id: NetworkId(c.id),
        controller: Fingerprint { address: Address(c.controller.address), hash: c.controller.hash },
    }
}

/// The engine record of a membership.
pub open spec fn network_to_capi(n: CertificateNetwork) -> CapiNetwork {
    CapiNetwork {
        id: n.id.0,
        controller: CapiFingerprint { address: n.controller.address.0, hash: n.controller.hash },
    }
}

impl CertificateNetwork {
    /// The membership that an engine record describes.
    pub fn new_from_capi(cn: &CapiNetwork) -> (r: CertificateNetwork)
        ensures
            r == network_from_capi(*cn),
    {
        CertificateNetwork {
            id: NetworkId(cn.id),
            controller: Fingerprint { address: Address(cn.controller.address), hash: cn.controller.hash },
        }
    }

    /// The engine record of this membership.
    pub fn to_capi(&self) -> (r: CapiNetwork)
        ensures
            r == network_to_capi(*self),
    {
        CapiNetwork {
            id: self.id.0,
            controller: CapiFingerprint { address: self.controller.address.0, hash: self.controller.hash },
        }
    }
}

/// A membership read back from its engine record is the same membership.
pub proof fn lemma_network_round_trip(n: CertificateNetwork)
    ensures
        network_from_capi(network_to_capi(n)) == n,
{
}

} // verus!
