use base64::Engine;
use holochain_conductor_runtime::authorization::{
    AuthorizedAppClients, AuthorizedAppClientsManager, ClientId,
    PERSISTED_FILE_NAME as AUTHORIZED_FILE_NAME,
};
use holochain_conductor_runtime::autostart::{
    AutostartConfig, AutostartConfigManager, PERSISTED_FILE_NAME as AUTOSTART_FILE_NAME,
};
use holochain_conductor_runtime::config::{
    check_data_root_path, check_data_root_path_with_limit, join_path, RuntimeNetworkConfig,
    SocketPlatform, APPLE_MAX_SOCKET_PATH_BYTES, MAX_SOCKET_PATH_BYTES,
};
use holochain_conductor_runtime::error::RuntimeError;
use holochain_conductor_runtime::hc_auth::{
    authenticate_body, authenticate_url, build_auth_material, encode_signature, now_url,
    status_from_http_code, trim_trailing_slashes, Challenge, HcAuthStatus, CHALLENGE_LEN,
    CHALLENGE_SIGNING_PREFIX, SIGNING_SCHEME,
};
use holochain_conductor_runtime::string_map::StringMap;
use holochain_conductor_runtime::text::decimal_string;
use holochain_conductor_runtime::url::Url;

fn b64url(bytes: &[u8]) -> String {
    base64::engine::general_purpose::URL_SAFE_NO_PAD.encode(bytes)
}

const DATA_ROOT: &str = "/tmp/holochain-data";

#[test]
fn authorization_authorize_saves_to_file() {
    let mut manager = AuthorizedAppClientsManager::new(DATA_ROOT, None);
    manager.authorize(ClientId("client-1".to_string()), "app-1".to_string());

    // What the host persists is the manager's data, at its file path.
    assert_eq!(
        manager.get_file_path(),
        format!("{DATA_ROOT}/{AUTHORIZED_FILE_NAME}")
    );
    assert_eq!(
        manager.authorized_app_clients.0.get("client-1"),
        Some(&vec!["app-1".to_string()])
    );
}

#[test]
fn is_authorized_loads_from_file() {
    let mut manager = AuthorizedAppClientsManager::new(DATA_ROOT, None);
    assert!(!manager.is_authorized(None, &ClientId("client-1".to_string()), "app-1"));

    let mut entries = StringMap::new();
    entries.insert("client-1".to_string(), vec!["app-1".to_string()]);
    let persisted = AuthorizedAppClients(entries);

    assert!(manager.is_authorized(
        Some(persisted),
        &ClientId("client-1".to_string()),
        "app-1"
    ));
}

#[test]
fn authorizing_one_client_leaves_the_others_alone() {
    let mut clients = AuthorizedAppClients::new();
    clients.authorize(ClientId("client-1".to_string()), "app-1".to_string());
    clients.authorize(ClientId("client-1".to_string()), "app-2".to_string());
    clients.authorize(ClientId("client-2".to_string()), "app-3".to_string());
    assert!(clients.is_authorized(&ClientId("client-1".to_string()), "app-1"));
    assert!(clients.is_authorized(&ClientId("client-1".to_string()), "app-2"));
    assert!(!clients.is_authorized(&ClientId("client-1".to_string()), "app-3"));
    assert!(clients.is_authorized(&ClientId("client-2".to_string()), "app-3"));
    assert!(!clients.is_authorized(&ClientId("client-3".to_string()), "app-1"));
}

fn default_runtime_network_config() -> RuntimeNetworkConfig {
    RuntimeNetworkConfig::default_config().expect("default URLs parse")
}

#[test]
fn autostart_authorize_saves_to_file() {
    let mut manager = AutostartConfigManager::new(DATA_ROOT, None);
    let config = default_runtime_network_config();
    let bootstrap = config.bootstrap_url.as_str().to_string();
    let relay = config.relay_url.as_str().to_string();
    manager.enable(config);

    assert_eq!(
        manager.get_file_path(),
        format!("{DATA_ROOT}/{AUTOSTART_FILE_NAME}")
    );
    let saved = manager.autostart_config.enabled_config.as_ref().unwrap();
    assert_eq!(saved.bootstrap_url.as_str(), bootstrap);
    assert_eq!(saved.relay_url.as_str(), relay);
}

#[test]
fn autostart_loads_from_file() {
    let manager = AutostartConfigManager::new(DATA_ROOT, None);
    assert!(manager.get_enabled_config().is_none());

    let persisted = AutostartConfig {
        enabled_config: Some(default_runtime_network_config()),
    };
    let manager2 = AutostartConfigManager::new(DATA_ROOT, Some(persisted));
    assert!(manager2.get_enabled_config().is_some());
}

#[test]
fn enabled_persisted() {
    let mut manager = AutostartConfigManager::new(DATA_ROOT, None);
    assert!(manager.get_enabled_config().is_none());

    let mut config = default_runtime_network_config();
    config.bootstrap_url = Url::parse("https://google.com").unwrap();
    manager.enable(config);
    assert!(manager.get_enabled_config().is_some());

    let reloaded = AutostartConfigManager::new(
        DATA_ROOT,
        Some(AutostartConfig {
            enabled_config: manager.get_enabled_config(),
        }),
    );
    let enabled = reloaded.get_enabled_config().unwrap();
    assert_eq!(enabled.bootstrap_url.as_str(), "https://google.com/");
    assert_eq!(
        enabled.relay_url.as_str(),
        default_runtime_network_config().relay_url.as_str()
    );
}

#[test]
fn disabled_persisted() {
    let mut manager = AutostartConfigManager::new(DATA_ROOT, None);
    assert!(manager.get_enabled_config().is_none());

    manager.enable(default_runtime_network_config());
    assert!(manager.get_enabled_config().is_some());

    manager.disable();
    assert!(manager.get_enabled_config().is_none());

    let reloaded = AutostartConfigManager::new(
        DATA_ROOT,
        Some(AutostartConfig {
            enabled_config: manager.get_enabled_config(),
        }),
    );
    assert!(reloaded.get_enabled_config().is_none());
}

#[test]
fn data_root_path_within_the_socket_limit_is_accepted() {
    assert!(check_data_root_path("/home/someone/.cache/app/holochain-0", SocketPlatform::LinuxOrAndroid).is_ok());
}

#[test]
fn data_root_path_over_the_socket_limit_is_rejected() {
    // "/" + 100 bytes + "/socket" is 108 bytes, over both platform limits.
    let path = format!("/{}", "a".repeat(100));
    match check_data_root_path(&path, SocketPlatform::LinuxOrAndroid) {
        Err(RuntimeError::DataRootPathTooLong { len, max, .. }) => {
            assert_eq!(len, 108);
            assert_eq!(max, MAX_SOCKET_PATH_BYTES);
        }
        other => panic!("expected DataRootPathTooLong, got {other:?}"),
    }
}

#[test]
fn the_socket_limit_counts_utf8_bytes_and_names_the_socket() {
    // 103 bytes of socket path fit the Apple limit exactly; 104 do not.
    let root = format!("/{}", "a".repeat(95));
    assert!(check_data_root_path_with_limit(&root, APPLE_MAX_SOCKET_PATH_BYTES).is_ok());
    let root = format!("/{}", "a".repeat(96));
    match check_data_root_path_with_limit(&root, APPLE_MAX_SOCKET_PATH_BYTES) {
        Err(RuntimeError::DataRootPathTooLong { path, len, max }) => {
            assert_eq!(path, format!("{root}/socket"));
            assert_eq!(len, 104);
            assert_eq!(max, 103);
        }
        other => panic!("expected DataRootPathTooLong, got {other:?}"),
    }
    // A two-byte character counts twice.
    let root = format!("/{}", "é".repeat(48));
    assert!(check_data_root_path_with_limit(&root, 104).is_ok());
    assert!(check_data_root_path_with_limit(&root, 103).is_err());
    let message = check_data_root_path(&format!("/{}", "a".repeat(100)), SocketPlatform::LinuxOrAndroid)
        .unwrap_err()
        .message();
    assert_eq!(
        message,
        format!(
            "data root path is too long for lair's socket: /{}/socket is 108 bytes, the limit is 107",
            "a".repeat(100)
        )
    );
}

#[test]
fn paths_join_with_a_single_separator() {
    assert_eq!(join_path("/data", "socket"), "/data/socket");
    assert_eq!(join_path("/data/", "socket"), "/data/socket");
    assert_eq!(join_path("", "socket"), "socket");
}

#[test]
fn signing_message_is_prefix_then_challenge() {
    let challenge = Challenge([7u8; CHALLENGE_LEN]);
    let message = challenge.signing_message();
    assert_eq!(
        &message[..CHALLENGE_SIGNING_PREFIX.len()],
        CHALLENGE_SIGNING_PREFIX
    );
    assert_eq!(&message[CHALLENGE_SIGNING_PREFIX.len()..], &challenge.0);
    // A msgpack map or array marker byte starts every serialized action;
    // the prefix must never look like one.
    assert!(CHALLENGE_SIGNING_PREFIX[0].is_ascii_alphabetic());
    assert_eq!(&CHALLENGE_SIGNING_PREFIX, b"hc-auth-challenge:");
}

#[test]
fn challenges_of_the_wrong_length_are_refused_before_signing() {
    // Long enough to be a serialized action, and a zome-call-hash-sized
    // payload with one byte missing: neither is a challenge.
    for wrong in [vec![0x80u8; 200], vec![1u8; CHALLENGE_LEN - 1], vec![]] {
        let result = Challenge::decode(&b64url(&wrong));
        assert!(
            matches!(result, Err(RuntimeError::HcAuth(ref m)) if m.contains("32 bytes")),
            "expected a length error, got {result:?}"
        );
    }
    assert!(matches!(
        Challenge::decode("not*base64url"),
        Err(RuntimeError::HcAuth(_))
    ));
    let right = [9u8; CHALLENGE_LEN];
    assert_eq!(Challenge::decode(&b64url(&right)).unwrap().0, right);
}

#[test]
fn an_encoded_challenge_decodes_to_itself() {
    let challenge = Challenge([9u8; CHALLENGE_LEN]);
    let text = challenge.encode();
    assert_eq!(text, b64url(&[9u8; CHALLENGE_LEN]));
    assert_eq!(Challenge::decode(&text).unwrap().0, [9u8; CHALLENGE_LEN]);
}

#[test]
fn requests_name_the_signing_scheme() {
    let material = build_auth_material("pk", "payload", "sig");
    let decoded = base64::engine::general_purpose::STANDARD
        .decode(material)
        .unwrap();
    let body: serde_json::Value = serde_json::from_slice(&decoded).unwrap();
    assert_eq!(body["scheme"], SIGNING_SCHEME);
    assert_eq!(body["pubKey"], "pk");
}

#[test]
fn authenticate_body_carries_all_four_fields() {
    let body: serde_json::Value =
        serde_json::from_str(&authenticate_body("pk", "payload", "sig")).unwrap();
    assert_eq!(body["pubKey"], "pk");
    assert_eq!(body["payload"], "payload");
    assert_eq!(body["signature"], "sig");
    assert_eq!(body["scheme"], "hc-auth-challenge-v1");
}

#[test]
fn auth_server_endpoints_drop_trailing_slashes() {
    assert_eq!(trim_trailing_slashes("https://auth.example.org///"), "https://auth.example.org");
    assert_eq!(now_url("https://auth.example.org/"), "https://auth.example.org/now");
    assert_eq!(
        authenticate_url("https://auth.example.org"),
        "https://auth.example.org/authenticate"
    );
}

#[test]
fn http_codes_map_to_statuses() {
    assert!(matches!(status_from_http_code(200), Ok(HcAuthStatus::Authorized)));
    assert!(matches!(status_from_http_code(202), Ok(HcAuthStatus::Pending)));
    assert!(matches!(status_from_http_code(401), Ok(HcAuthStatus::NotRegistered)));
    assert!(matches!(status_from_http_code(403), Ok(HcAuthStatus::Blocked)));
    match status_from_http_code(500) {
        Err(RuntimeError::HcAuth(m)) => assert_eq!(m, "PUT /authenticate unexpected status: 500"),
        other => panic!("expected an hc-auth error, got {other:?}"),
    }
}

#[test]
fn signatures_are_encoded_base64url_without_padding() {
    assert_eq!(encode_signature(&[0xfb, 0xff]), "-_8");
    assert_eq!(encode_signature(&[]), "");
}

#[test]
fn decimal_rendering_matches_format() {
    for n in [0u64, 7, 10, 99, 1420, 65535, u64::MAX] {
        assert_eq!(decimal_string(n), format!("{n}"));
    }
}

#[test]
fn apple_platforms_refuse_a_socket_path_linux_accepts() {
    // A 104-byte socket path: over the Apple limit of 103, within Linux's 107.
    let root = format!("/{}", "a".repeat(96));
    assert!(check_data_root_path(&root, SocketPlatform::LinuxOrAndroid).is_ok());
    match check_data_root_path(&root, SocketPlatform::Apple) {
        Err(RuntimeError::DataRootPathTooLong { len, max, .. }) => {
            assert_eq!(len, 104);
            assert_eq!(max, APPLE_MAX_SOCKET_PATH_BYTES);
        }
        other => panic!("expected DataRootPathTooLong, got {other:?}"),
    }
}
