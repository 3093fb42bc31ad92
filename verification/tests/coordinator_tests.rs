use storagehub::coordinator::{respond_to_inbound, NetAction, NetworkCommand, Service};
use storagehub::multiaddr::{Multiaddr, Protocol};

fn addr(components: Vec<Protocol>) -> Multiaddr {
    Multiaddr { protocols: components }
}

fn protocol_name() -> Vec<u8> {
    b"/storagehub/req-res/0.0.1".to_vec()
}

#[test]
fn external_dial_becomes_dial_action() {
    let service = Service::new(protocol_name());
    let action = service.handle_command(NetworkCommand::ExternalDial {
        multiaddr: addr(vec![Protocol::Ip4(1, 2, 3, 4), Protocol::Tcp(7)]),
        channel: 11,
    });
    match action {
        NetAction::Dial { multiaddr, channel } => {
            assert_eq!(channel, 11);
            assert!(matches!(multiaddr.protocols[0], Protocol::Ip4(1, 2, 3, 4)));
        }
        _ => panic!("expected a dial action"),
    }
}

#[test]
fn multiaddresses_snapshot_current_listeners() {
    let mut service = Service::new(protocol_name());
    service.on_new_listen_addr(addr(vec![Protocol::Ip4(127, 0, 0, 1), Protocol::Tcp(1)]));
    service.on_new_listen_addr(addr(vec![Protocol::Ip4(10, 0, 0, 5), Protocol::Tcp(2)]));

    let action = service.handle_command(NetworkCommand::Multiaddresses { channel: 3 });
    match action {
        NetAction::SendAddresses { addresses, channel } => {
            assert_eq!(channel, 3);
            assert_eq!(addresses.len(), 2);
            assert!(matches!(addresses[1].protocols[0], Protocol::Ip4(10, 0, 0, 5)));
        }
        _ => panic!("expected an address snapshot"),
    }
}

#[test]
fn request_file_routes_to_peer() {
    let service = Service::new(protocol_name());
    let action = service.handle_command(NetworkCommand::RequestFile {
        file_id: b"a.txt".to_vec(),
        peer_id: vec![9, 9],
        multiaddr: addr(vec![Protocol::Ip4(1, 2, 3, 4)]),
        channel: 21,
    });
    match action {
        NetAction::RouteRequest { file_id, peer_id, channel, .. } => {
            assert_eq!(file_id, b"a.txt".to_vec());
            assert_eq!(peer_id, vec![9, 9]);
            assert_eq!(channel, 21);
        }
        _ => panic!("expected a routed request"),
    }
}

#[test]
fn pending_requests_resolve_exactly_once() {
    // Distinct in-flight requests resolve independently, each exactly
    // once.
    let mut service = Service::new(protocol_name());
    service.record_pending(1, 101);
    service.record_pending(2, 102);
    service.record_pending(3, 103);

    assert_eq!(service.resolve_pending(2), Some(102));
    // The same id resolves nothing a second time.
    assert_eq!(service.resolve_pending(2), None);
    // The other entries are untouched.
    assert_eq!(service.resolve_pending(1), Some(101));
    assert_eq!(service.resolve_pending(3), Some(103));
    assert_eq!(service.resolve_pending(3), None);
    // An id that was never pending resolves nothing.
    assert_eq!(service.resolve_pending(7), None);
}

#[test]
fn inbound_response_carries_file_bytes_unchanged() {
    // Round-trip fidelity: the response payload is the stored file's
    // byte content.
    let stored = b"the stored file content".to_vec();
    let response = respond_to_inbound(Some(stored.clone())).unwrap();
    assert_eq!(response.0, stored);

    // A file that could not be read answers nothing.
    assert!(respond_to_inbound(None).is_none());
}

#[test]
fn identify_registers_addresses_for_supported_peers() {
    let service = Service::new(protocol_name());
    let advertised = vec![
        addr(vec![Protocol::Ip4(1, 2, 3, 4), Protocol::Tcp(5)]),
        addr(vec![Protocol::Ip4(5, 6, 7, 8), Protocol::Tcp(9)]),
    ];

    // A peer speaking the file-transfer protocol has all its addresses
    // registered.
    let protocols = vec![b"/other/1.0".to_vec(), protocol_name()];
    let registered = service.handle_identify(&protocols, advertised);
    assert_eq!(registered.len(), 2);

    // A peer without the protocol has none.
    let other_only = vec![b"/other/1.0".to_vec()];
    let registered = service.handle_identify(
        &other_only,
        vec![addr(vec![Protocol::Ip4(1, 2, 3, 4)])],
    );
    assert!(registered.is_empty());
}
