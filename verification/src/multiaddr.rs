//! A structured model of self-describing network addresses.
//!
//! An address is a sequence of protocol components. The bridge needs to
//! read three things from an address: whether it carries a public (non
//! loopback) IPv4 component, and the peer identity that requesters embed
//! as the final component of the address they advertise.

use vstd::prelude::*;
use crate::types::clone_bytes;

verus! {

/// One component of a multiaddress.
pub enum Protocol {
    /// An IPv4 host component.
    Ip4(u8, u8, u8, u8),
    /// A TCP port component.
    Tcp(u16),
    /// A peer identity component.
    P2p(Vec<u8>),
    /// Any other component, carried opaquely.
    Other(Vec<u8>),
}

/// The mathematical value of a [`Protocol`] component.
pub ghost enum ProtocolView {
    Ip4(u8, u8, u8, u8),
    Tcp(u16),
    P2p(Seq<u8>),
    Other(Seq<u8>),
}

impl View for Protocol {
    type V = ProtocolView;

    open spec fn view(&self) -> ProtocolView {
        match self {
            Protocol::Ip4(a, b, c, d) => ProtocolView::Ip4(*a, *b, *c, *d),
            Protocol::Tcp(p) => ProtocolView::Tcp(*p),
            Protocol::P2p(peer) => ProtocolView::P2p(peer@),
            Protocol::Other(bytes) => ProtocolView::Other(bytes@),
        }
    }
}

/// A self-describing network address: a sequence of protocol components.
pub struct Multiaddr {
    pub protocols: Vec<Protocol>,
}

impl View for Multiaddr {
    type V = Seq<ProtocolView>;

    open spec fn view(&self) -> Seq<ProtocolView> {
        self.protocols@.map_values(|p: Protocol| p@)
    }
}

/// An IPv4 component that is not the loopback host.
pub open spec fn is_public_ip4(p: ProtocolView) -> bool {
    p matches ProtocolView::Ip4(a, b, c, d) && !(a == 127 && b == 0 && c == 0 && d == 1)
}

/// Whether an address carries a public IPv4 component.
pub open spec fn has_public_ip4(a: Seq<ProtocolView>) -> bool {
    exists|i: int| 0 <= i < a.len() && is_public_ip4(a[i])
}

/// A copy of a protocol component.
pub fn clone_protocol(p: &Protocol) -> (r: Protocol)
    ensures
        r@ == p@,
{
    match p {
        Protocol::Ip4(a, b, c, d) => Protocol::Ip4(*a, *b, *c, *d),
        Protocol::Tcp(port) => Protocol::Tcp(*port),
        Protocol::P2p(peer) => Protocol::P2p(clone_bytes(peer)),
        Protocol::Other(bytes) => Protocol::Other(clone_bytes(bytes)),
    }
}

/// A copy of a multiaddress.
pub fn clone_multiaddr(a: &Multiaddr) -> (r: Multiaddr)
    ensures
        r@ == a@,
{
    let mut protocols: Vec<Protocol> = Vec::with_capacity(a.protocols.len());
    let mut i: usize = 0;
    while i < a.protocols.len()
        invariant
            i <= a.protocols@.len(),
            protocols@.len() == i,
            forall|j: int| 0 <= j < i ==> protocols@[j]@ == a.protocols@[j]@,
        decreases a.protocols@.len() - i,
    {
        protocols.push(clone_protocol(&a.protocols[i]));
        i += 1;
    }
    let r = Multiaddr { protocols };
    proof {
        assert(r@ =~= a@);
    }
    r
}

/// Whether this component is a public (non loopback) IPv4 component.
pub fn protocol_is_public_ip4(p: &Protocol) -> (r: bool)
    ensures
        r == is_public_ip4(p@),
{
    match p {
        Protocol::Ip4(a, b, c, d) => !(*a == 127 && *b == 0 && *c == 0 && *d == 1),
        _ => false,
    }
}

/// Whether the address carries a public IPv4 component.
pub fn addr_has_public_ip4(a: &Multiaddr) -> (r: bool)
    ensures
        r == has_public_ip4(a@),
{
    let mut i: usize = 0;
    while i < a.protocols.len()
        invariant
            i <= a.protocols@.len(),
            forall|j: int| 0 <= j < i ==> !is_public_ip4(a@[j]),
        decreases a.protocols@.len() - i,
    {
        if protocol_is_public_ip4(&a.protocols[i]) {
            proof {
                assert(is_public_ip4(a@[i as int]));
            }
            return true;
        }
        i += 1;
    }
    false
}

/// The first address of the list that carries a public IPv4 component:
/// the address a node advertises so peers outside its host can reach it.
pub fn first_public_address(addrs: &Vec<Multiaddr>) -> (r: Option<usize>)
    ensures
        match r {
            Some(i) => i < addrs@.len() && has_public_ip4(addrs@[i as int]@) && (forall|j: int|
                0 <= j < i ==> !has_public_ip4(addrs@[j]@)),
            None => forall|j: int| 0 <= j < addrs@.len() ==> !has_public_ip4(addrs@[j]@),
        },
{
    let mut i: usize = 0;
    while i < addrs.len()
        invariant
            i <= addrs@.len(),
            forall|j: int| 0 <= j < i ==> !has_public_ip4(addrs@[j]@),
        decreases addrs@.len() - i,
    {
        if addr_has_public_ip4(&addrs[i]) {
            return Some(i);
        }
        i += 1;
    }
    None
}

/// Splits the peer identity off an advertised address: the requester
/// embeds it as the final component. An address whose final component is
/// no peer identity (or an empty address) yields nothing.
pub fn split_peer(addr: &Multiaddr) -> (r: Option<(Vec<u8>, Multiaddr)>)
    ensures
        match r {
            Some(pair) => addr@.len() > 0 && addr@.last() == ProtocolView::P2p(pair.0@) && pair.1@
                == addr@.drop_last(),
            None => addr@.len() == 0 || !(addr@.last() matches ProtocolView::P2p(_)),
        },
{
    if addr.protocols.len() == 0 {
        return None;
    }
    let last_idx = addr.protocols.len() - 1;
    match &addr.protocols[last_idx] {
        Protocol::P2p(peer) => {
            let peer_id = clone_bytes(peer);
            let mut rest: Vec<Protocol> = Vec::with_capacity(last_idx);
            let mut i: usize = 0;
            while i < last_idx
                invariant
                    last_idx < addr.protocols@.len(),
                    i <= last_idx,
                    rest@.len() == i,
                    forall|j: int| 0 <= j < i ==> rest@[j]@ == addr.protocols@[j]@,
                decreases last_idx - i,
            {
                rest.push(clone_protocol(&addr.protocols[i]));
                i += 1;
            }
            let rest_addr = Multiaddr { protocols: rest };
            proof {
                assert(rest_addr@ =~= addr@.drop_last());
            }
            Some((peer_id, rest_addr))
        },
        _ => None,
    }
}

} // verus!
