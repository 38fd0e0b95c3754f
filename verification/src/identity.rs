//! Workload identities.

use vstd::prelude::*;
use vstd::string::*;

verus! {

/// A SPIFFE identity.
#[derive(Debug, Hash, PartialEq, Eq)]
pub struct Identity {
    pub trust_domain: String,
    pub namespace: String,
    pub service_account: String,
}

/// What an [`Identity`] says.
pub struct IdentityView {
    pub trust_domain: Seq<char>,
    pub namespace: Seq<char>,
    pub service_account: Seq<char>,
}

impl View for Identity {
    type V = IdentityView;

    open spec fn view(&self) -> IdentityView {
        IdentityView {
            trust_domain: self.trust_domain@,
            namespace: self.namespace@,
            service_account: self.service_account@,
        }
    }
}

impl Clone for Identity {
    fn clone(&self) -> (r: Self)
        ensures
            r == *self,
    {
        Identity {
            trust_domain: self.trust_domain.clone(),
            namespace: self.namespace.clone(),
            service_account: self.service_account.clone(),
        }
    }
}

impl IdentityView {
    /// `spiffe://<trust domain>/ns/<namespace>/sa/<service account>`.
    pub open spec fn text(self) -> Seq<char> {
        "spiffe://"@ + self.trust_domain + "/ns/"@ + self.namespace + "/sa/"@
            + self.service_account
    }
}

impl Identity {
    /// Whether two identities are the same.
    pub fn same(&self, other: &Identity) -> (r: bool)
        ensures
            r == (self@ == other@),
    {
        self.trust_domain == other.trust_domain && self.namespace == other.namespace
            && self.service_account == other.service_account
    }

    /// The identity as a SPIFFE URI.
    pub fn to_text(&self) -> (s: String)
        ensures
            s@ == self@.text(),
    {
        let s = "spiffe://".to_owned().concat(self.trust_domain.as_str());
        let s = s.concat("/ns/").concat(self.namespace.as_str());
        s.concat("/sa/").concat(self.service_account.as_str())
    }
}

/// The views of the identities in a vector.
pub open spec fn identity_views(ids: Seq<Identity>) -> Seq<IdentityView> {
    ids.map_values(|id: Identity| id@)
}

/// Whether two lists hold the same identities in the same order.
pub fn same_identities(a: &Vec<Identity>, b: &Vec<Identity>) -> (r: bool)
    ensures
        r == (identity_views(a@) == identity_views(b@)),
{
    if a.len() != b.len() {
        assert(identity_views(a@).len() != identity_views(b@).len());
        return false;
    }
    let mut i: usize = 0;
    while i < a.len()
        invariant
            i <= a.len(),
            a.len() == b.len(),
            forall|j: int| 0 <= j < i ==> a@[j]@ == b@[j]@,
        decreases a.len() - i,
    {
        if !a[i].same(&b[i]) {
            assert(identity_views(a@)[i as int] != identity_views(b@)[i as int]);
            return false;
        }
        i += 1;
    }
    assert(identity_views(a@) =~= identity_views(b@));
    true
}

/// A copy of a list of identities.
pub fn clone_identities(ids: &Vec<Identity>) -> (r: Vec<Identity>)
    ensures
        r@ == ids@,
{
    let mut r: Vec<Identity> = Vec::new();
    let mut i: usize = 0;
    while i < ids.len()
        invariant
            i <= ids.len(),
            r@ == ids@.take(i as int),
        decreases ids.len() - i,
    {
        r.push(ids[i].clone());
        i += 1;
        assert(r@ =~= ids@.take(i as int));
    }
    assert(ids@.take(i as int) =~= ids@);
    r
}

/// An identity says what its fields hold, and is written as a SPIFFE URI of them.
pub proof fn identities_say_what_they_hold(id: Identity, ids: Seq<Identity>, i: int)
    requires
        0 <= i < ids.len(),
    ensures
        id@.trust_domain == id.trust_domain@,
        id@.namespace == id.namespace@,
        id@.service_account == id.service_account@,
        id@.text() == "spiffe://"@ + id.trust_domain@ + "/ns/"@ + id.namespace@ + "/sa/"@
            + id.service_account@,
        identity_views(ids).len() == ids.len(),
        identity_views(ids)[i] == ids[i]@,
{
}

} // verus!
