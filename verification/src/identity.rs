//! Workload identities.

use vstd::prelude::*;

verus! {

/// The cryptographic identity of a workload.
#[derive(Clone, Debug)]
pub struct Identity {
    pub trust_domain: String,
    pub namespace: String,
    pub service_account: String,
}

/// What an `Identity` says, as sequences of characters.
pub ghost struct IdentityView {
    pub trust_domain: Seq<char>,
    pub namespace: Seq<char>,
    pub service_account: Seq<char>,
}

impl View for Identity {
    type V = IdentityView;

    open spec fn view(&self) -> IdentityView {
        IdentityView {
            trust_domain: self.trust_domain@,
            namespace: self.namespace@,
            service_account: self.service_account@,
        }
    }
}

/// The view of an identity that may be absent.
pub open spec fn identity_view(id: Option<Identity>) -> Option<IdentityView> {
    match id {
        Some(i) => Some(i@),
        None => None,
    }
}

impl Identity {
    pub fn new(trust_domain: String, namespace: String, service_account: String) -> (id: Identity)
        ensures
            id == (Identity { trust_domain, namespace, service_account }),
    {
        Identity { trust_domain, namespace, service_account }
    }

    /// Whether two identities name the same trust domain, namespace and
    /// service account.
    pub fn same(&self, other: &Identity) -> (b: bool)
        ensures
            b == (self@ == other@),
    {
        self.trust_domain == other.trust_domain && self.namespace == other.namespace
            && self.service_account == other.service_account
    }

    pub fn duplicate(&self) -> (id: Identity)
        ensures
            id == *self,
    {
        Identity {
            trust_domain: self.trust_domain.clone(),
            namespace: self.namespace.clone(),
            service_account: self.service_account.clone(),
        }
    }
}

/// Whether two optional identities agree: both absent, or both present and the same.
pub fn same_identity(a: &Option<Identity>, b: &Option<Identity>) -> (r: bool)
    ensures
        r == (identity_view(*a) == identity_view(*b)),
{
    match (a, b) {
        (Some(x), Some(y)) => x.same(y),
        (None, None) => true,
        _ => false,
    }
}

} // verus!
