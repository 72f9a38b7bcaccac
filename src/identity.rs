use vstd::prelude::*;

use crate::ids::{Identity, IdentityView, Locator};

verus! {

/// The value of an optional locator.
pub open spec fn locator_view(l: Option<Locator>) -> Option<Seq<u8>> {
    match l {
        Some(x) => Some(x@),
        None => None,
    }
}

/// The value of an optional identity.
pub open spec fn identity_opt_view(i: Option<Identity>) -> Option<IdentityView> {
    match i {
        Some(x) => Some(x@),
        None => None,
    }
}

/// Engine-facing form of an identity binding, where either part may be absent.
pub struct CapiIdentity {
    pub identity: Option<Identity>,
    pub locator: Option<Locator>,
}

/// Value of an engine-facing identity binding.
pub struct CapiIdentityView {
    pub identity: Option<IdentityView>,
    pub locator: Option<Seq<u8>>,
}

impl View for CapiIdentity {
    type V = CapiIdentityView;

    open spec fn view(&self) -> CapiIdentityView {
        CapiIdentityView { identity: identity_opt_view(self.identity), locator: locator_view(self.locator) }
    }
}

/// An identity that a subject holds, with where it can optionally be reached.
pub struct CertificateIdentity {
    pub identity: Identity,
    pub locator: Option<Locator>,
}

/// Value of an identity binding.
pub struct CertificateIdentityView {
    pub identity: IdentityView,
    pub locator: Option<Seq<u8>>,
}

impl View for CertificateIdentity {
    type V = CertificateIdentityView;

    open spec fn view(&self) -> CertificateIdentityView {
        CertificateIdentityView { identity: self.identity@, locator: locator_view(self.locator) }
    }
}

/// The engine form of a binding.
pub open spec fn identity_to_capi(v: CertificateIdentityView) -> CapiIdentityView {
    CapiIdentityView { identity: Some(v.identity), locator: v.locator }
}

/// The binding that an engine record holds; none where it holds no identity.
pub open spec fn identity_from_capi(c: CapiIdentityView) -> Option<CertificateIdentityView> {
    match c.identity {
        Some(i) => Some(CertificateIdentityView { identity: i, locator: c.locator }),
        None => None,
    }
}

/// The value of an optional binding.
pub open spec fn binding_opt_view(b: Option<CertificateIdentity>) -> Option<CertificateIdentityView> {
    match b {
        Some(x) => Some(x@),
        None => None,
    }
}

/// An optional locator equal to `l`.
fn copy_locator(l: &Option<Locator>) -> (r: Option<Locator>)
    ensures
        locator_view(r) == locator_view(*l),
{
    match l {
        Some(x) => Some(x.duplicate()),
        None => None,
    }
}

impl CertificateIdentity {
    /// The binding that an engine record holds. A record without an identity
    /// is an empty binding, which gives `None` and is no error.
    pub fn new_from_capi(ci: &CapiIdentity) -> (r: Option<CertificateIdentity>)
        ensures
            binding_opt_view(r) == identity_from_capi(ci@),
    {
        match &ci.identity {
            Some(i) => Some(CertificateIdentity { identity: i.duplicate(), locator: copy_locator(&ci.locator) }),
            None => None,
        }
    }

    /// The engine record of this binding.
    pub fn to_capi(&self) -> (r: CapiIdentity)
        ensures
            r@ == identity_to_capi(self@),
    {
        CapiIdentity { identity: Some(self.identity.duplicate()), locator: copy_locator(&self.locator) }
    }

    /// A binding equal to this one.
    pub fn duplicate(&self) -> (r: CertificateIdentity)
        ensures
            r@ == self@,
    {
        CertificateIdentity { identity: self.identity.duplicate(), locator: copy_locator(&self.locator) }
    }
}

/// A binding read back from its engine record is the same binding.
pub proof fn lemma_identity_round_trip(v: CertificateIdentityView)
    ensures
        identity_from_capi(identity_to_capi(v)) == Some(v),
{
}

} // verus!
