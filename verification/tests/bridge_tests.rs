use storagehub::bridge::{
    bridge_step, find_first_storage_request, plan_transfer, BlockEvent, BlockOutcome, BridgeStep,
    NewStorageRequest, StorageHubError,
};
use storagehub::multiaddr::{
    first_public_address, split_peer, Multiaddr, Protocol,
};

fn addr(components: Vec<Protocol>) -> Multiaddr {
    Multiaddr { protocols: components }
}

fn request_event(sender: Multiaddr) -> NewStorageRequest {
    NewStorageRequest {
        who: 1,
        location: b"a.txt".to_vec(),
        fingerprint: vec![7; 32],
        size: 4,
        sender_multiaddress: sender,
    }
}

#[test]
fn first_storage_request_event_is_picked() {
    let events = vec![
        BlockEvent::Other,
        BlockEvent::StorageRequest(request_event(addr(vec![]))),
        BlockEvent::StorageRequest(NewStorageRequest {
            who: 2,
            location: b"b.txt".to_vec(),
            fingerprint: vec![8; 32],
            size: 9,
            sender_multiaddress: addr(vec![]),
        }),
    ];
    assert_eq!(find_first_storage_request(&events), Some(1));
    assert_eq!(find_first_storage_request(&vec![BlockEvent::Other]), None);
    assert_eq!(find_first_storage_request(&vec![]), None);
}

#[test]
fn public_address_selection_skips_loopback() {
    let addrs = vec![
        addr(vec![Protocol::Ip4(127, 0, 0, 1), Protocol::Tcp(1)]),
        addr(vec![Protocol::Ip4(10, 1, 2, 3), Protocol::Tcp(2)]),
        addr(vec![Protocol::Ip4(10, 1, 2, 4), Protocol::Tcp(3)]),
    ];
    assert_eq!(first_public_address(&addrs), Some(1));

    let loopback_only = vec![addr(vec![Protocol::Ip4(127, 0, 0, 1)])];
    assert_eq!(first_public_address(&loopback_only), None);
    assert_eq!(first_public_address(&vec![]), None);
}

#[test]
fn peer_identity_splits_off_advertised_address() {
    let advertised = addr(vec![
        Protocol::Ip4(9, 8, 7, 6),
        Protocol::Tcp(4001),
        Protocol::P2p(vec![1, 2, 3]),
    ]);
    let (peer, rest) = split_peer(&advertised).unwrap();
    assert_eq!(peer, vec![1, 2, 3]);
    assert_eq!(rest.protocols.len(), 2);
    assert!(matches!(rest.protocols[0], Protocol::Ip4(9, 8, 7, 6)));
    assert!(matches!(rest.protocols[1], Protocol::Tcp(4001)));

    // No trailing peer identity: nothing to split.
    let plain = addr(vec![Protocol::Ip4(9, 8, 7, 6), Protocol::Tcp(4001)]);
    assert!(split_peer(&plain).is_none());
    assert!(split_peer(&addr(vec![])).is_none());
}

#[test]
fn transfer_plan_volunteers_then_fetches() {
    let event = request_event(addr(vec![
        Protocol::Ip4(9, 8, 7, 6),
        Protocol::Tcp(4001),
        Protocol::P2p(vec![1, 2, 3]),
    ]));
    let own = vec![
        addr(vec![Protocol::Ip4(127, 0, 0, 1), Protocol::Tcp(30333)]),
        addr(vec![Protocol::Ip4(172, 16, 0, 9), Protocol::Tcp(30333)]),
    ];

    let plan = plan_transfer(&event, &own).unwrap();

    assert_eq!(plan.volunteer.location, b"a.txt".to_vec());
    assert_eq!(plan.volunteer.fingerprint, vec![7; 32]);
    assert!(matches!(
        plan.volunteer.multiaddress.protocols[0],
        Protocol::Ip4(172, 16, 0, 9)
    ));

    let fetch = plan.fetch.unwrap();
    assert_eq!(fetch.peer_id, vec![1, 2, 3]);
    assert_eq!(fetch.file_id, b"a.txt".to_vec());
    assert_eq!(fetch.multiaddr.protocols.len(), 2);
}

#[test]
fn transfer_plan_skips_fetch_without_peer_identity() {
    let event = request_event(addr(vec![Protocol::Ip4(9, 8, 7, 6), Protocol::Tcp(4001)]));
    let own = vec![addr(vec![Protocol::Ip4(172, 16, 0, 9)])];

    let plan = plan_transfer(&event, &own).unwrap();
    assert!(plan.fetch.is_none());
}

#[test]
fn transfer_plan_fails_without_public_address() {
    let event = request_event(addr(vec![Protocol::P2p(vec![1])]));
    let own = vec![addr(vec![Protocol::Ip4(127, 0, 0, 1), Protocol::Tcp(30333)])];

    assert!(matches!(
        plan_transfer(&event, &own),
        Err(StorageHubError::Other)
    ));
}

#[test]
fn bridge_run_continues_and_ends_as_classified() {
    // An ended stream is the expected end of the run, not a fault.
    assert_eq!(
        bridge_step(BlockOutcome::StreamEnded),
        BridgeStep::Return(StorageHubError::SubscriptionFinished)
    );
    // A failed transfer never ends the run.
    assert_eq!(
        bridge_step(BlockOutcome::Processed { transfer_failed: true }),
        BridgeStep::NextBlock
    );
    assert_eq!(
        bridge_step(BlockOutcome::Processed { transfer_failed: false }),
        BridgeStep::NextBlock
    );
    // Decode, dispatch and planning failures end the run under their own
    // errors.
    assert_eq!(
        bridge_step(BlockOutcome::DecodeFailed),
        BridgeStep::Return(StorageHubError::CodecError)
    );
    assert_eq!(
        bridge_step(BlockOutcome::DispatchFailed),
        BridgeStep::Return(StorageHubError::DispatchError)
    );
    assert_eq!(
        bridge_step(BlockOutcome::PlanFailed(StorageHubError::Other)),
        BridgeStep::Return(StorageHubError::Other)
    );
}
