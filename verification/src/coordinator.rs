//! Bookkeeping of the peer-to-peer transfer coordinator.
//!
//! The coordinator owns one transport instance and a single-threaded event
//! loop. Everything the loop decides — what a command asks of the
//! transport, which completion handle a transport event resolves, which
//! identify-announced addresses to register — is a function of the state
//! held here; the loop performs the returned action and feeds transport
//! events back in. Completion handles and transport request ids are
//! carried as plain correlation numbers.
//!
//! The pending-operation table holds at most one completion handle per
//! request id: the handle is recorded once when the request is issued and
//! taken out exactly once, by the response or the outbound failure that
//! resolves it; resolving an unknown id is ignored, not fatal.

use vstd::prelude::*;
use std::collections::HashMap;
use crate::multiaddr::{Multiaddr, ProtocolView};
use crate::types::bytes_eq;

verus! {

broadcast use vstd::std_specs::hash::group_hash_axioms;

/// The mathematical value of a list of addresses.
pub open spec fn addrs_view(s: Seq<Multiaddr>) -> Seq<Seq<ProtocolView>> {
    s.map_values(|a: Multiaddr| a@)
}

/// A request for the content of one file, carried on the wire as an
/// opaque identifier.
pub struct FileRequest(pub Vec<u8>);

/// The raw byte payload answering a [`FileRequest`].
pub struct FileResponse(pub Vec<u8>);

/// Commands the rest of the application sends to the coordinator's loop.
/// `channel` numbers correlate a command with the completion handle its
/// caller waits on.
pub enum NetworkCommand {
    /// Dial an external peer.
    ExternalDial { multiaddr: Multiaddr, channel: u64 },
    /// Ask for the current list of listen addresses.
    Multiaddresses { channel: u64 },
    /// Request a file from a peer reachable at `multiaddr`.
    RequestFile { file_id: Vec<u8>, peer_id: Vec<u8>, multiaddr: Multiaddr, channel: u64 },
    /// Answer an inbound file request on an open response channel.
    RespondFile { file: Vec<u8>, channel: u64 },
    /// Drop a previously learned address of a peer.
    RemoveAddress { peer_id: Vec<u8>, multiaddr: Multiaddr },
}

/// What the coordinator's loop must do with the transport in answer to
/// one command.
pub enum NetAction {
    /// Dial the address, then resolve the completion with the dial's
    /// outcome.
    Dial { multiaddr: Multiaddr, channel: u64 },
    /// Resolve the completion with the given listen-address snapshot.
    SendAddresses { addresses: Vec<Multiaddr>, channel: u64 },
    /// Register the address for the peer, issue the file request, and
    /// record the transport's request id against `channel`.
    RouteRequest { file_id: Vec<u8>, peer_id: Vec<u8>, multiaddr: Multiaddr, channel: u64 },
    /// Send the payload on the open response channel.
    SendResponse { file: Vec<u8>, channel: u64 },
    /// Drop the learned address of the peer.
    DropAddress { peer_id: Vec<u8>, multiaddr: Multiaddr },
}

/// The coordinator's own state: the pending-operation table, the
/// listen-address snapshot, and the wire name of the file-transfer
/// protocol.
pub struct Service {
    pending_responses: HashMap<u64, u64>,
    listeners: Vec<Multiaddr>,
    protocol_name: Vec<u8>,
}

impl Service {
    /// The pending-operation table: transport request id to completion
    /// handle.
    pub closed spec fn pending(self) -> Map<u64, u64> {
        self.pending_responses@
    }

    /// The listen addresses reported by the transport so far.
    pub closed spec fn listeners_view(self) -> Seq<Multiaddr> {
        self.listeners@
    }

    /// The wire name of the file-transfer protocol.
    pub closed spec fn protocol_name_view(self) -> Seq<u8> {
        self.protocol_name@
    }

    /// A coordinator with no pending operation and no listen address,
    /// speaking the file-transfer protocol named `protocol_name`.
    pub fn new(protocol_name: Vec<u8>) -> (r: Service)
        ensures
            r.pending() == Map::<u64, u64>::empty(),
            r.listeners_view() == Seq::<Multiaddr>::empty(),
            r.protocol_name_view() == protocol_name@,
    {
        let r = Service {
            pending_responses: HashMap::new(),
            listeners: Vec::new(),
            protocol_name,
        };
        proof {
            assert(r.listeners@ =~= Seq::<Multiaddr>::empty());
        }
        r
    }

    /// Decides what the transport must do for one command. The
    /// coordinator's own state does not change: pending entries are
    /// recorded only once the transport has assigned a request id, by
    /// [`Service::record_pending`].
    pub fn handle_command(&self, command: NetworkCommand) -> (r: NetAction)
        ensures
            match command {
                NetworkCommand::ExternalDial { multiaddr, channel } => r matches NetAction::Dial {
                    multiaddr: m,
                    channel: c,
                } && m@ == multiaddr@ && c == channel,
                NetworkCommand::Multiaddresses { channel } => r matches NetAction::SendAddresses {
                    addresses: a,
                    channel: c,
                } && addrs_view(a@) == addrs_view(self.listeners_view()) && c == channel,
                NetworkCommand::RequestFile { file_id, peer_id, multiaddr, channel } => r matches
                    NetAction::RouteRequest {
                    file_id: f,
                    peer_id: p,
                    multiaddr: m,
                    channel: c,
                } && f@ == file_id@ && p@ == peer_id@ && m@ == multiaddr@ && c == channel,
                NetworkCommand::RespondFile { file, channel } => r matches
                    NetAction::SendResponse { file: f, channel: c } && f@ == file@ && c == channel,
                NetworkCommand::RemoveAddress { peer_id, multiaddr } => r matches
                    NetAction::DropAddress { peer_id: p, multiaddr: m } && p@ == peer_id@ && m@
                    == multiaddr@,
            },
    {
        match command {
            NetworkCommand::ExternalDial { multiaddr, channel } => NetAction::Dial {
                multiaddr,
                channel,
            },
            NetworkCommand::Multiaddresses { channel } => {
                let mut addresses: Vec<Multiaddr> = Vec::with_capacity(self.listeners.len());
                let mut i: usize = 0;
                while i < self.listeners.len()
                    invariant
                        i <= self.listeners@.len(),
                        addresses@.len() == i,
                        forall|j: int|
                            0 <= j < i ==> addresses@[j]@ == self.listeners@[j]@,
                    decreases self.listeners@.len() - i,
                {
                    addresses.push(crate::multiaddr::clone_multiaddr(&self.listeners[i]));
                    i += 1;
                }
                proof {
                    assert(addrs_view(addresses@) =~= addrs_view(self.listeners@));
                }
                NetAction::SendAddresses { addresses, channel }
            },
            NetworkCommand::RequestFile { file_id, peer_id, multiaddr, channel } => {
                NetAction::RouteRequest { file_id, peer_id, multiaddr, channel }
            },
            NetworkCommand::RespondFile { file, channel } => NetAction::SendResponse {
                file,
                channel,
            },
            NetworkCommand::RemoveAddress { peer_id, multiaddr } => NetAction::DropAddress {
                peer_id,
                multiaddr,
            },
        }
    }

    /// Records the completion handle an issued file request resolves.
    /// The transport assigns each outbound request a fresh id, so no
    /// entry exists for it yet.
    pub fn record_pending(&mut self, request_id: u64, channel: u64)
        requires
            !old(self).pending().contains_key(request_id),
        ensures
            final(self).pending() == old(self).pending().insert(request_id, channel),
            final(self).listeners_view() == old(self).listeners_view(),
            final(self).protocol_name_view() == old(self).protocol_name_view(),
    {
        self.pending_responses.insert(request_id, channel);
    }

    /// Takes the completion handle a response or an outbound failure for
    /// `request_id` resolves, destroying the entry: each pending
    /// operation resolves at most once, and an id with no pending entry
    /// resolves nothing.
    pub fn resolve_pending(&mut self, request_id: u64) -> (r: Option<u64>)
        ensures
            final(self).listeners_view() == old(self).listeners_view(),
            final(self).protocol_name_view() == old(self).protocol_name_view(),
            old(self).pending().contains_key(request_id) ==> r == Some(
                old(self).pending()[request_id],
            ) && final(self).pending() == old(self).pending().remove(request_id),
            !old(self).pending().contains_key(request_id) ==> r == None::<u64>
                && final(self).pending() == old(self).pending(),
    {
        let r = self.pending_responses.remove(&request_id);
        proof {
            if !old(self).pending().contains_key(request_id) {
                assert(self.pending_responses@ =~= old(self).pending());
            }
        }
        r
    }

    /// Records a listen address the transport reports.
    pub fn on_new_listen_addr(&mut self, address: Multiaddr)
        ensures
            final(self).listeners_view() == old(self).listeners_view().push(address),
            final(self).pending() == old(self).pending(),
            final(self).protocol_name_view() == old(self).protocol_name_view(),
    {
        self.listeners.push(address);
    }

    /// Decides which identify-announced addresses to register: all of the
    /// peer's listen addresses if it advertises the file-transfer
    /// protocol, none otherwise, so future file requests can route to it
    /// without a prior explicit dial.
    pub fn handle_identify(&self, protocols: &Vec<Vec<u8>>, listen_addrs: Vec<Multiaddr>) -> (r:
        Vec<Multiaddr>)
        ensures
            (exists|i: int|
                0 <= i < protocols@.len() && protocols@[i]@ == self.protocol_name_view()) ==> r
                == listen_addrs,
            !(exists|i: int|
                0 <= i < protocols@.len() && protocols@[i]@ == self.protocol_name_view()) ==> r@
                =~= Seq::<Multiaddr>::empty(),
    {
        let mut i: usize = 0;
        while i < protocols.len()
            invariant
                i <= protocols@.len(),
                forall|j: int| 0 <= j < i ==> protocols@[j]@ != self.protocol_name@,
            decreases protocols@.len() - i,
        {
            if bytes_eq(&protocols[i], &self.protocol_name) {
                return listen_addrs;
            }
            i += 1;
        }
        Vec::new()
    }
}

/// On an inbound file request the coordinator answers with exactly the
/// bytes read for the file, and a file that could not be read leaves the
/// request unanswered.
pub fn respond_to_inbound(file: Option<Vec<u8>>) -> (r: Option<FileResponse>)
    ensures
        match file {
            Some(bytes) => r matches Some(resp) && resp.0@ == bytes@,
            None => r is None,
        },
{
    match file {
        Some(bytes) => Some(FileResponse(bytes)),
        None => None,
    }
}

/// Distinct in-flight requests resolve independently and each resolves
/// exactly once: taking one id's handle leaves every other entry bound
/// as before, and a second take of the same id finds no entry (so, by
/// the contract of [`Service::resolve_pending`], it resolves nothing).
pub proof fn lemma_pending_resolved_once(pending: Map<u64, u64>, id1: u64, id2: u64)
    requires
        pending.contains_key(id1),
        pending.contains_key(id2),
        id1 != id2,
    ensures
        !pending.remove(id1).contains_key(id1),
        pending.remove(id1).contains_key(id2),
        pending.remove(id1)[id2] == pending[id2],
{
}

} // verus!
