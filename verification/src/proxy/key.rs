//! What connections are pooled by.

use vstd::prelude::*;

use crate::assoc::AssocKey;
use crate::identity::{clone_identities, identity_views, same_identities, Identity, IdentityView};
use crate::net::{IpAddr, SocketAddr};

verus! {

/// What a pooled connection is good for: connections are shared only within one key.
#[derive(Debug, PartialEq, Eq, Hash)]
pub struct Key {
    pub src_id: Identity,
    pub dst_id: Vec<Identity>,
    /// The destination checks that its address is the one the tunnel was asked for, so
    /// the node alone would not do.
    pub dst: SocketAddr,
    /// The source address is spoofed, so connections of different sources differ.
    pub src: IpAddr,
}

/// What a [`Key`] says.
pub struct KeyView {
    pub src_id: IdentityView,
    pub dst_id: Seq<IdentityView>,
    pub dst: SocketAddr,
    pub src: IpAddr,
}

impl View for Key {
    type V = KeyView;

    open spec fn view(&self) -> KeyView {
        KeyView {
            src_id: self.src_id@,
            dst_id: identity_views(self.dst_id@),
            dst: self.dst,
            src: self.src,
        }
    }
}

impl Clone for Key {
    fn clone(&self) -> (r: Self)
        ensures
            r@ == self@,
    {
        Key {
            src_id: self.src_id.clone(),
            dst_id: clone_identities(&self.dst_id),
            dst: self.dst,
            src: self.src,
        }
    }
}

impl AssocKey for Key {
    fn same(&self, other: &Self) -> (r: bool) {
        self.src_id.same(&other.src_id) && same_identities(&self.dst_id, &other.dst_id)
            && self.dst == other.dst && self.src == other.src
    }
}

/// Connections are shared exactly between requests from the same identity and address to the
/// same address and the same identities, in order.
pub proof fn keys_tell_requests_apart(a: Key, b: Key)
    ensures
        a@ == b@ <==> {
            &&& a.src_id.trust_domain@ == b.src_id.trust_domain@
            &&& a.src_id.namespace@ == b.src_id.namespace@
            &&& a.src_id.service_account@ == b.src_id.service_account@
            &&& a.dst_id@.len() == b.dst_id@.len()
            &&& forall|i: int|
                0 <= i < a.dst_id@.len() ==> (#[trigger] a.dst_id@[i]).trust_domain@
                    == b.dst_id@[i].trust_domain@ && a.dst_id@[i].namespace@
                    == b.dst_id@[i].namespace@ && a.dst_id@[i].service_account@
                    == b.dst_id@[i].service_account@
            &&& a.dst == b.dst
            &&& a.src == b.src
        },
{
    if a@ == b@ {
        assert(identity_views(a.dst_id@).len() == identity_views(b.dst_id@).len());
        assert forall|i: int| 0 <= i < a.dst_id@.len() implies (
        #[trigger] a.dst_id@[i]).trust_domain@ == b.dst_id@[i].trust_domain@
            && a.dst_id@[i].namespace@ == b.dst_id@[i].namespace@ && a.dst_id@[i].service_account@
            == b.dst_id@[i].service_account@ by {
            assert(identity_views(a.dst_id@)[i] == identity_views(b.dst_id@)[i]);
        }
    }
    if a.dst_id@.len() == b.dst_id@.len() && forall|i: int|
        0 <= i < a.dst_id@.len() ==> (#[trigger] a.dst_id@[i]).trust_domain@
            == b.dst_id@[i].trust_domain@ && a.dst_id@[i].namespace@ == b.dst_id@[i].namespace@
            && a.dst_id@[i].service_account@ == b.dst_id@[i].service_account@ {
        assert(identity_views(a.dst_id@) =~= identity_views(b.dst_id@));
    }
}

} // verus!
