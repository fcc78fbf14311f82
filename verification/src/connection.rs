//! The key under which a flow is tracked and authorised.

use vstd::prelude::*;
use crate::identity::{identity_view, same_identity, Identity, IdentityView};
use crate::net::SocketAddr;

verus! {

/// One admitted flow: who sends, and to which address of which network.
#[derive(Clone, Debug)]
pub struct Connection {
    pub src_identity: Option<Identity>,
    pub src: SocketAddr,
    pub dst_network: String,
    pub dst: SocketAddr,
}

/// What a `Connection` says; two connections are the same flow exactly when
/// their views are equal.
pub ghost struct ConnectionView {
    pub src_identity: Option<IdentityView>,
    pub src: SocketAddr,
    pub dst_network: Seq<char>,
    pub dst: SocketAddr,
}

impl View for Connection {
    type V = ConnectionView;

    open spec fn view(&self) -> ConnectionView {
        ConnectionView {
            src_identity: identity_view(self.src_identity),
            src: self.src,
            dst_network: self.dst_network@,
            dst: self.dst,
        }
    }
}

impl Connection {
    /// Whether `self` and `other` are the same flow.
    pub fn same(&self, other: &Connection) -> (b: bool)
        ensures
            b == (self@ == other@),
    {
        same_identity(&self.src_identity, &other.src_identity) && self.src == other.src
            && self.dst_network == other.dst_network && self.dst == other.dst
    }

    pub fn duplicate(&self) -> (c: Connection)
        ensures
            c == *self,
    {
        let src_identity = match &self.src_identity {
            Some(id) => Some(id.duplicate()),
            None => None,
        };
        Connection {
            src_identity,
            src: self.src,
            dst_network: self.dst_network.clone(),
            dst: self.dst,
        }
    }
}

} // verus!
