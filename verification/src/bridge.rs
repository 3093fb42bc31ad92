//! The chain-event bridge's decisions.
//!
//! The bridge consumes a stream of finalized blocks. For each block it
//! looks for the first request-created event, volunteers for the
//! announced file, and fetches its content from the requester. Every
//! step that waits — on the block stream, on transaction finalization,
//! on the transfer — is performed by the surrounding run loop; what to
//! do at each step is decided here, from plain values.

use vstd::prelude::*;
use crate::multiaddr::{
    Multiaddr, ProtocolView, first_public_address, split_peer, has_public_ip4, clone_multiaddr,
};
use crate::types::clone_bytes;

verus! {

/// Failures the bridge's run loop reports to its scheduler.
#[derive(PartialEq, Eq, Structural, Debug, Clone, Copy)]
pub enum StorageHubError {
    /// The chain connection failed.
    SubxtError,
    /// A block or event could not be decoded.
    CodecError,
    /// Text carried by an event was not valid UTF-8.
    Utf8Error,
    /// The chain's metadata did not match what was expected.
    MetadataError,
    /// A submitted transaction was rejected at dispatch.
    DispatchError,
    /// The block stream ended: the expected end-of-stream condition, not
    /// a fault.
    SubscriptionFinished,
    /// An address could not be parsed.
    ParseError,
    /// Any other failure, among them the lack of a public address to
    /// advertise.
    Other,
}

/// A request-created notification read from a finalized block.
pub struct NewStorageRequest {
    /// The account that announced the file.
    pub who: u64,
    /// The byte path identifying the file.
    pub location: Vec<u8>,
    /// The 32-byte content hash of the file.
    pub fingerprint: Vec<u8>,
    /// The file size.
    pub size: u64,
    /// The address the requester advertises, its final component the
    /// requester's peer identity.
    pub sender_multiaddress: Multiaddr,
}

/// One event of a finalized block, as far as the bridge reads it.
pub enum BlockEvent {
    /// A request-created notification.
    StorageRequest(NewStorageRequest),
    /// Any other event, skipped by the bridge.
    Other,
}

/// Whether an event is a request-created notification.
pub open spec fn is_storage_request(e: BlockEvent) -> bool {
    e matches BlockEvent::StorageRequest(_)
}

/// The position of the first request-created event of a block, if any:
/// the bridge inspects only that event of each block.
pub fn find_first_storage_request(events: &Vec<BlockEvent>) -> (r: Option<usize>)
    ensures
        match r {
            Some(i) => i < events@.len() && is_storage_request(events@[i as int]) && (forall|
                j: int,
            |
                0 <= j < i ==> !is_storage_request(events@[j])),
            None => forall|j: int| 0 <= j < events@.len() ==> !is_storage_request(events@[j]),
        },
{
    let mut i: usize = 0;
    while i < events.len()
        invariant
            i <= events@.len(),
            forall|j: int| 0 <= j < i ==> !is_storage_request(events@[j]),
        decreases events@.len() - i,
    {
        if matches!(&events[i], BlockEvent::StorageRequest(_)) {
            return Some(i);
        }
        i += 1;
    }
    None
}

/// The volunteer transaction the bridge submits: the announced location
/// and fingerprint, with the address this node advertises.
pub struct VolunteerCall {
    pub location: Vec<u8>,
    pub fingerprint: Vec<u8>,
    pub multiaddress: Multiaddr,
}

/// The transfer the bridge drives after its volunteer transaction is
/// included: dial the requester and request the file.
pub struct FetchStep {
    /// The requester's peer identity, from the final component of its
    /// advertised address.
    pub peer_id: Vec<u8>,
    /// The advertised address without that final component.
    pub multiaddr: Multiaddr,
    /// The file identifier: the announced location.
    pub file_id: Vec<u8>,
}

/// Everything the run loop must do for one request-created event.
pub struct TransferPlan {
    /// Submitted first, awaiting finalized inclusion.
    pub volunteer: VolunteerCall,
    /// Driven after inclusion; absent when the requester's address
    /// carries no peer identity, which skips the event.
    pub fetch: Option<FetchStep>,
}

/// Plans the bridge's work for one request-created event. It fails when
/// and only when no listen address carries a public IPv4 component — a
/// node that cannot be reached must not volunteer, and the condition is
/// unrecoverable for this bridge run; on every other input it plans.
pub fn plan_transfer(event: &NewStorageRequest, own_addrs: &Vec<Multiaddr>) -> (r: Result<
    TransferPlan,
    StorageHubError,
>)
    ensures
        (forall|j: int| 0 <= j < own_addrs@.len() ==> !has_public_ip4(own_addrs@[j]@)) <==> r
            == Err::<TransferPlan, _>(StorageHubError::Other),
        r is Err ==> r == Err::<TransferPlan, _>(StorageHubError::Other),
        r matches Ok(plan) ==> ({
            &&& plan.volunteer.location@ == event.location@
            &&& plan.volunteer.fingerprint@ == event.fingerprint@
            &&& exists|i: int|
                0 <= i < own_addrs@.len() && has_public_ip4(own_addrs@[i]@) && (forall|j: int|
                    0 <= j < i ==> !has_public_ip4(own_addrs@[j]@)) && plan.volunteer.multiaddress@
                    == own_addrs@[i]@
            &&& event.sender_multiaddress@.len() > 0 ==> (event.sender_multiaddress@.last()
                matches ProtocolView::P2p(p) ==> (plan.fetch matches Some(fetch) && fetch.peer_id@
                == p && fetch.multiaddr@ == event.sender_multiaddress@.drop_last()
                && fetch.file_id@ == event.location@))
            &&& (event.sender_multiaddress@.len() == 0 || !(event.sender_multiaddress@.last()
                matches ProtocolView::P2p(_))) ==> plan.fetch is None
        }),
{
    let own_index = match first_public_address(own_addrs) {
        None => {
            return Err(StorageHubError::Other);
        },
        Some(i) => i,
    };
    let volunteer = VolunteerCall {
        location: clone_bytes(&event.location),
        fingerprint: clone_bytes(&event.fingerprint),
        multiaddress: clone_multiaddr(&own_addrs[own_index]),
    };
    let fetch = match split_peer(&event.sender_multiaddress) {
        Some((peer_id, multiaddr)) => Some(
            FetchStep { peer_id, multiaddr, file_id: clone_bytes(&event.location) },
        ),
        None => None,
    };
    Ok(TransferPlan { volunteer, fetch })
}

/// What one iteration of the bridge's run loop ended in.
#[derive(PartialEq, Eq, Structural, Debug)]
pub enum BlockOutcome {
    /// The stream yielded no further block.
    StreamEnded,
    /// The block was handled to its end, whether or not a file transfer
    /// it asked for succeeded.
    Processed { transfer_failed: bool },
    /// The block or its events could not be decoded.
    DecodeFailed,
    /// The submitted volunteer transaction was rejected.
    DispatchFailed,
    /// The event could not be planned for.
    PlanFailed(StorageHubError),
}

/// How the run loop goes on.
#[derive(PartialEq, Eq, Structural, Debug)]
pub enum BridgeStep {
    /// Wait for the next block.
    NextBlock,
    /// End this bridge run, reporting the error to the scheduler.
    Return(StorageHubError),
}

/// Decides how the run loop goes on after one stream item: an ended
/// stream returns `SubscriptionFinished` — the expected end, not a fault
/// — and a failed transfer never ends the run; only decode, dispatch and
/// planning failures do, each under its own error.
pub fn bridge_step(outcome: BlockOutcome) -> (r: BridgeStep)
    ensures
        outcome == BlockOutcome::StreamEnded ==> r == BridgeStep::Return(
            StorageHubError::SubscriptionFinished,
        ),
        (outcome matches BlockOutcome::Processed { .. }) ==> r == BridgeStep::NextBlock,
        outcome == BlockOutcome::DecodeFailed ==> r == BridgeStep::Return(
            StorageHubError::CodecError,
        ),
        outcome == BlockOutcome::DispatchFailed ==> r == BridgeStep::Return(
            StorageHubError::DispatchError,
        ),
        outcome matches BlockOutcome::PlanFailed(e) ==> r == BridgeStep::Return(e),
{
    match outcome {
        BlockOutcome::StreamEnded => BridgeStep::Return(StorageHubError::SubscriptionFinished),
        BlockOutcome::Processed { transfer_failed: _ } => BridgeStep::NextBlock,
        BlockOutcome::DecodeFailed => BridgeStep::Return(StorageHubError::CodecError),
        BlockOutcome::DispatchFailed => BridgeStep::Return(StorageHubError::DispatchError),
        BlockOutcome::PlanFailed(e) => BridgeStep::Return(e),
    }
}

} // verus!
