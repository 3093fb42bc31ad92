use storagehub::support::{parse_chain_prefix, DevAccounts, LightClientOptions, Role, SupportedRuntime};

#[test]
fn chain_addresses_and_names() {
    assert_eq!(SupportedRuntime::Local.ws_address(), "ws://127.0.0.1:9944");
    assert_eq!(SupportedRuntime::Compose.ws_address(), "ws://storagehub:9944");
    assert_eq!(SupportedRuntime::Local.name(), "Local");
    assert_eq!(SupportedRuntime::Compose.name(), "Compose");
}

#[test]
fn chain_selection_from_prefix_and_symbol() {
    assert_eq!(
        SupportedRuntime::from_chain_prefix(0),
        Some(SupportedRuntime::Local)
    );
    assert_eq!(SupportedRuntime::from_chain_prefix(2), None);

    assert_eq!(
        SupportedRuntime::from_token_symbol(&b"shDOT".to_vec()),
        Some(SupportedRuntime::Local)
    );
    assert_eq!(SupportedRuntime::from_token_symbol(&b"DOT".to_vec()), None);
}

#[test]
fn signer_uris() {
    assert_eq!(DevAccounts::Alice.signer_uri(), "//Alice");
    assert_eq!(DevAccounts::Bob.signer_uri(), "//Bob");
    assert_eq!(DevAccounts::Charlie.signer_uri(), "//Charlie");
    assert_eq!(DevAccounts::Dave.signer_uri(), "//Dave");
}

#[test]
fn chain_prefix_parsing() {
    assert_eq!(parse_chain_prefix(&b"0".to_vec()), Some(0));
    assert_eq!(parse_chain_prefix(&b"42".to_vec()), Some(42));
    assert_eq!(parse_chain_prefix(&b"00042".to_vec()), Some(42));
    assert_eq!(parse_chain_prefix(&b"65535".to_vec()), Some(65535));
    assert_eq!(parse_chain_prefix(&b"65536".to_vec()), None);
    assert_eq!(parse_chain_prefix(&b"999999999".to_vec()), None);
    assert_eq!(parse_chain_prefix(&b"".to_vec()), None);
    assert_eq!(parse_chain_prefix(&b"4x2".to_vec()), None);
}

#[test]
fn key_seed_expansion() {
    let bytes = storagehub::support::key_seed_bytes(7);
    assert_eq!(bytes.len(), 32);
    assert_eq!(bytes[0], 7);
    assert!(bytes[1..].iter().all(|b| *b == 0));
}

#[test]
fn ws_address_override() {
    let mut options = LightClientOptions {
        run_as: Role::BspProvider,
        chain: SupportedRuntime::Local,
        dev_account: DevAccounts::Alice,
        ws_address: None,
        upload_path: "./up".to_string(),
        download_path: "./down".to_string(),
    };
    assert_eq!(options.effective_ws_address(), "ws://127.0.0.1:9944");

    options.ws_address = Some("ws://example:9944".to_string());
    assert_eq!(options.effective_ws_address(), "ws://example:9944");

    options.ws_address = None;
    options.chain = SupportedRuntime::Compose;
    assert_eq!(options.effective_ws_address(), "ws://storagehub:9944");
}
