use std::cell::RefCell;
use std::collections::HashSet;

use holochain_conductor_runtime::config::{
    RuntimeNetworkConfig, SocketPlatform,
};
use holochain_conductor_runtime::error::RuntimeError;
use holochain_conductor_runtime::network::{
    dev_network_config, dev_network_url, try_dev_network_config, DevPlatform, NetworkConfig, UserNetworkConfig,
    DEV_INITIATE_BURST_FACTOR,
};
use holochain_conductor_runtime::origin::{
    app_origin, lock_navigation, media_decision, media_permission, navigation_allowed,
    origin_header_value, origin_of, same_origin, AppUrlContext, NavigationVerdict,
    PermissionDecision, WebviewTarget,
};
use holochain_conductor_runtime::paths::{
    claim_dev_instance_dir, dev_instance_dir, layout_app_paths, MAX_DEV_INSTANCES,
};
use holochain_conductor_runtime::plugin::{
    direct_env_script, legacy_env_script, window_wiring, zome_call_params, Error,
    PendingOnce, PluginLifecycle, SignZomeCallRequest, WindowBindings, WindowWiring,
};
use holochain_conductor_runtime::url::Url;

fn url(s: &str) -> Url {
    Url::parse(s).unwrap()
}

#[test]
fn same_origin_matches_scheme_host_and_port_only() {
    let origin = url("tauri://localhost");
    assert!(same_origin(&url("tauri://localhost/index.html"), &origin));
    assert!(same_origin(&url("tauri://localhost/deep/path?x=1#y"), &origin));
    assert!(!same_origin(&url("https://localhost/index.html"), &origin));
    assert!(!same_origin(&url("tauri://evil.example/index.html"), &origin));
    assert!(!same_origin(&url("https://example.org/"), &origin));
    assert!(!same_origin(&url("about:blank"), &origin));

    let dev = url("http://localhost:1420");
    assert!(same_origin(&url("http://localhost:1420/src/main.ts"), &dev));
    assert!(!same_origin(&url("http://localhost:1421/"), &dev));
    assert!(!same_origin(&url("http://127.0.0.1:1420/"), &dev));
    // The default port is the same origin whether or not it is written.
    assert!(same_origin(&url("http://localhost:80/"), &url("http://localhost")));
}

#[test]
fn origin_of_keeps_scheme_host_and_explicit_port() {
    assert_eq!(
        origin_of(&url("tauri://localhost/index.html")).unwrap().as_str(),
        "tauri://localhost"
    );
    assert_eq!(
        origin_of(&url("http://localhost:1420/index.html")).unwrap().as_str(),
        "http://localhost:1420/"
    );
    assert_eq!(
        origin_header_value(&url("http://tauri.localhost/")),
        "http://tauri.localhost"
    );
    assert_eq!(
        origin_header_value(&url("https://ui.example.org:443/")),
        "https://ui.example.org"
    );
}

#[test]
fn navigation_allows_same_origin_and_its_blobs_only() {
    let origin = url("tauri://localhost");
    assert!(navigation_allowed(&url("tauri://localhost/other.html"), &origin));
    assert!(navigation_allowed(&url("blob:tauri://localhost/3f1c-4b2e"), &origin));
    assert!(!navigation_allowed(&url("blob:https://evil.example/3f1c-4b2e"), &origin));
    assert!(!navigation_allowed(&url("blob:nonsense"), &origin));
    assert!(!navigation_allowed(&url("data:text/html,<h1>look-alike</h1>"), &origin));
    assert!(!navigation_allowed(&url("https://evil.example/"), &origin));
    assert!(!navigation_allowed(&url("about:blank"), &origin));

    let windows = url("http://tauri.localhost");
    assert!(navigation_allowed(&url("blob:http://tauri.localhost/3f1c"), &windows));
}

fn desktop_context() -> AppUrlContext {
    AppUrlContext {
        is_dev: false,
        mobile: false,
        windows_or_android: false,
        dev_url: None,
        frontend_dist_url: None,
    }
}

#[test]
fn app_url_resolves_to_the_app_protocol_when_nothing_else_is_configured() {
    let ctx = desktop_context();
    let origin = app_origin(&ctx, &WebviewTarget::App("index.html".into())).unwrap();
    assert_eq!(origin.as_str(), url("tauri://localhost").as_str());
    assert!(same_origin(&url("tauri://localhost/index.html"), &origin));
}

#[test]
fn external_urls_are_their_own_origin_on_desktop() {
    let ctx = desktop_context();
    let external = url("https://ui.example.org/app/index.html");
    assert_eq!(
        app_origin(&ctx, &WebviewTarget::External(external)).unwrap().as_str(),
        url("https://ui.example.org").as_str()
    );
    let custom = url("happ://forum/index.html");
    assert_eq!(
        app_origin(&ctx, &WebviewTarget::CustomProtocol(custom)).unwrap().as_str(),
        url("happ://forum").as_str()
    );
}

#[test]
fn custom_schemes_become_http_subdomains_on_windows_and_android() {
    let ctx = AppUrlContext {
        windows_or_android: true,
        ..desktop_context()
    };
    let custom = url("happ://forum/index.html");
    assert_eq!(
        app_origin(&ctx, &WebviewTarget::CustomProtocol(custom)).unwrap().as_str(),
        "http://happ.forum/"
    );
    assert_eq!(
        app_origin(&ctx, &WebviewTarget::App("index.html".into())).unwrap().as_str(),
        "http://tauri.localhost/"
    );
}

#[test]
fn dev_servers_on_the_local_network_are_proxied_on_mobile() {
    let mobile_dev = AppUrlContext {
        is_dev: true,
        mobile: true,
        windows_or_android: false,
        dev_url: Some(url("http://192.168.1.20:1420")),
        frontend_dist_url: None,
    };
    let origin = app_origin(&mobile_dev, &WebviewTarget::App("index.html".into())).unwrap();
    assert_eq!(origin.as_str(), "tauri://localhost");

    let desktop_dev = AppUrlContext {
        mobile: false,
        dev_url: Some(url("http://localhost:1420")),
        ..mobile_dev
    };
    let origin = app_origin(&desktop_dev, &WebviewTarget::App("index.html".into())).unwrap();
    assert_eq!(origin.as_str(), "http://localhost:1420/");

    // An external URL on the dev server is proxied on mobile too.
    let mobile_dev = AppUrlContext {
        mobile: true,
        ..desktop_dev
    };
    let external = url("http://localhost:1420/page.html");
    let origin = app_origin(&mobile_dev, &WebviewTarget::External(external)).unwrap();
    assert_eq!(origin.as_str(), "tauri://localhost");
}

#[test]
fn unsupported_webview_urls_are_refused() {
    let ctx = desktop_context();
    match app_origin(&ctx, &WebviewTarget::Other("Data(..)".into())) {
        Err(Error::UnsupportedWebviewUrl(d)) => assert_eq!(d, "Data(..)"),
        other => panic!("expected UnsupportedWebviewUrl, got {other:?}"),
    }
    assert_eq!(
        Error::UnsupportedWebviewUrl("x".into()).message(),
        "unsupported webview url: x"
    );
}

#[test]
fn media_is_granted_only_on_the_recorded_origin() {
    let origin = url("tauri://localhost");
    assert_eq!(
        media_permission(true, Some("tauri://localhost/scan"), Some(&origin)),
        PermissionDecision::Allow
    );
    assert_eq!(
        media_permission(true, Some("https://evil.example/"), Some(&origin)),
        PermissionDecision::Deny
    );
    assert_eq!(
        media_permission(true, Some("not a url"), Some(&origin)),
        PermissionDecision::Deny
    );
    assert_eq!(
        media_permission(true, Some("tauri://localhost/scan"), None),
        PermissionDecision::Deny
    );
    assert_eq!(
        media_permission(false, Some("tauri://localhost/scan"), Some(&origin)),
        PermissionDecision::Default
    );
    assert_eq!(media_decision(true, None, Some(&origin)), PermissionDecision::Deny);
}

#[test]
fn relative_urls_need_a_shared_origin() {
    let base = url("https://example.net/a/b/");
    assert_eq!(
        base.make_relative(&url("https://example.net/a/d/c.png")).as_deref(),
        Some("../d/c.png")
    );
    assert_eq!(base.make_relative(&url("https://other.example/a/")), None);
}

#[test]
fn parsing_reports_the_parser_error() {
    assert_eq!(Url::try_parse("nonsense").unwrap_err(), "relative URL without a base");
    let u = Url::try_parse("HTTP://Example.ORG:8080/a").unwrap();
    assert_eq!(u.as_str(), "http://example.org:8080/a");
    assert_eq!(u.scheme, "http");
    assert_eq!(u.port, Some(8080));
    assert_eq!(u.port_or_known_default(), Some(8080));
    assert_eq!(url("https://example.org").port_or_known_default(), Some(443));
    assert_eq!(url("happ://forum").port_or_known_default(), None);
}

/// A stand-in for the lock files: the directories whose lock another process
/// holds.
struct Locks {
    held: RefCell<HashSet<String>>,
}

impl Locks {
    fn new() -> Locks {
        Locks {
            held: RefCell::new(HashSet::new()),
        }
    }

    fn try_lock(&self, dir: &String) -> Result<bool, String> {
        Ok(self.held.borrow_mut().insert(dir.clone()))
    }

    fn release(&self, dir: &str) {
        self.held.borrow_mut().remove(dir);
    }
}

const ROOT: &str = "/tmp/app-cache/forum";

#[test]
fn dev_instances_take_the_next_free_slot() {
    let locks = Locks::new();
    let first = dev_instance_dir(ROOT, 0);
    assert!(locks.try_lock(&first).unwrap());
    // Held by `first`, so the next claim moves on to slot 1.
    assert_eq!(
        claim_dev_instance_dir(ROOT, |d: &String| locks.try_lock(d)).unwrap(),
        format!("{ROOT}/holochain-1")
    );

    // Once slot 0 is released it is free again.
    locks.release(&first);
    assert!(locks.try_lock(&first).unwrap());
}

#[test]
fn all_slots_taken_falls_back_to_a_shared_dir() {
    let locks = Locks::new();
    for n in 0..MAX_DEV_INSTANCES {
        assert!(locks.try_lock(&dev_instance_dir(ROOT, n)).unwrap());
    }
    assert_eq!(
        claim_dev_instance_dir(ROOT, |d: &String| locks.try_lock(d)).unwrap(),
        format!("{ROOT}/holochain")
    );
}

#[test]
fn a_lock_failure_names_the_directory() {
    let result = claim_dev_instance_dir(ROOT, |d: &String| {
        if d.ends_with("holochain-0") {
            Ok(false)
        } else {
            Err("permission denied".to_string())
        }
    });
    match result {
        Err(Error::AppPaths(m)) => {
            assert_eq!(m, format!("{ROOT}/holochain-1: permission denied"))
        }
        other => panic!("expected AppPaths, got {other:?}"),
    }
}

#[test]
fn app_paths_follow_the_dev_and_production_layouts() {
    let prod = layout_app_paths(ROOT, None, SocketPlatform::LinuxOrAndroid).unwrap();
    assert_eq!(prod.holochain_dir, format!("{ROOT}/holochain"));
    assert_eq!(prod.user_network_config, format!("{ROOT}/user-network-config.json"));

    let dev = layout_app_paths(ROOT, Some(format!("{ROOT}/holochain-3")), SocketPlatform::LinuxOrAndroid).unwrap();
    assert_eq!(dev.holochain_dir, format!("{ROOT}/holochain-3"));
    assert_eq!(
        dev.user_network_config,
        format!("{ROOT}/holochain-3/user-network-config.json")
    );

    let long_root = format!("/{}", "a".repeat(100));
    match layout_app_paths(&long_root, None, SocketPlatform::LinuxOrAndroid) {
        Err(Error::Runtime(RuntimeError::DataRootPathTooLong { len, max, .. })) => {
            assert_eq!(len, 118);
            assert_eq!(max, 107);
        }
        other => panic!("expected DataRootPathTooLong, got {other:?}"),
    }
    // 104 bytes of socket path fit Linux but not Apple platforms.
    let root = format!("/{}", "a".repeat(86));
    assert!(layout_app_paths(&root, None, SocketPlatform::LinuxOrAndroid).is_ok());
    assert!(layout_app_paths(&root, None, SocketPlatform::Apple).is_err());
}

#[test]
fn dev_settings_reach_the_kitsune2_config() {
    let config = dev_network_config("http://192.168.1.20:8888");
    assert_eq!(config.bootstrap_url.as_str(), "http://192.168.1.20:8888/");
    assert_eq!(config.relay_url.as_str(), "http://192.168.1.20:8888/");

    let advanced: serde_json::Value =
        serde_json::from_str(config.advanced.as_deref().unwrap()).unwrap();
    assert_eq!(advanced["irohTransport"]["relayAllowPlainText"], true);
    assert_eq!(
        advanced["k2Gossip"]["initiateBurstFactor"],
        DEV_INITIATE_BURST_FACTOR
    );
    assert_eq!(
        config.relay_url.as_str().trim_end_matches('/'),
        "http://192.168.1.20:8888"
    );
}

#[test]
fn dev_network_url_defaults_on_desktop() {
    assert_eq!(
        dev_network_url(DevPlatform::Desktop, None, None),
        "http://127.0.0.1:8888"
    );
    assert_eq!(
        dev_network_url(DevPlatform::Android, None, None),
        "http://10.0.2.2:8888"
    );
    assert_eq!(
        dev_network_url(DevPlatform::Ios, Some("192.168.1.20".into()), Some("9000".into())),
        "http://192.168.1.20:9000"
    );
}

#[test]
fn saved_settings_override_only_the_urls_they_set() {
    let saved = UserNetworkConfig {
        bootstrap_url: Some(url("https://bootstrap.example.org")),
        relay_url: None,
    };
    let mut network = dev_network_config("http://127.0.0.1:8888");
    let ignored = UserNetworkConfig::apply_saved::<String>(Ok(Some(saved)), &mut network);
    assert!(ignored.is_none());
    assert_eq!(network.bootstrap_url.as_str(), "https://bootstrap.example.org/");
    assert_eq!(network.relay_url.as_str(), "http://127.0.0.1:8888/");
}

#[test]
fn unreadable_settings_are_ignored() {
    let mut network = NetworkConfig::default_config().unwrap();
    let before = network.bootstrap_url.as_str().to_string();
    let ignored = UserNetworkConfig::apply_saved::<String>(Err("not json".into()), &mut network);
    assert_eq!(ignored.as_deref(), Some("not json"));
    assert_eq!(network.bootstrap_url.as_str(), before);
}

#[test]
fn runtime_network_settings_carry_over_into_the_network_config() {
    let runtime = RuntimeNetworkConfig::default_config().unwrap();
    let bootstrap = runtime.bootstrap_url.as_str().to_string();
    let network = NetworkConfig::from_runtime_network_config(runtime);
    assert_eq!(network.bootstrap_url.as_str(), bootstrap);
    assert!(network.base64_auth_material_bootstrap.is_none());
    assert!(network.advanced.is_none());
}

/// The injected env reads `payload.app_id` and `payload.seq` from the rebound
/// event: the plugin emits both, with a seq that grows with each rebind.
#[test]
fn shipped_bundle_matches_rebound_payload_shape() {
    let mut bindings = WindowBindings::new();
    bindings.bind_window("main".into(), "app-1".into());

    let seq = bindings.next_rebind_seq();
    let event = bindings
        .complete_rebind("main".into(), Some("app-2".into()), seq, Ok(()))
        .unwrap();
    assert_eq!(event.app_id.as_deref(), Some("app-2"));
    assert_eq!(event.seq, 1);

    let seq = bindings.next_rebind_seq();
    let event = bindings.complete_rebind("main".into(), None, seq, Ok(())).unwrap();
    assert_eq!(event.app_id, None);
    assert_eq!(event.seq, 2);
}

/// The env scripts take the plugin identifier from the Rust side; none bakes
/// in a plugin name.
#[test]
fn shipped_bundle_does_not_hardcode_a_plugin_name() {
    let direct = direct_env_script(&Some("forum".to_string()), "my-plugin");
    assert_eq!(direct, "window.injectHolochainTauriEnv(\"forum\", \"my-plugin\");");
    let legacy = legacy_env_script("forum", 1234, &vec![1, 2, 3]);
    assert_eq!(legacy, "window.injectHolochainClientEnv(\"forum\", 1234, [1, 2, 3]);");
    for script in [direct, legacy] {
        for literal in ["\"holochain\"", "'holochain'", "\"hc\"", "'hc'"] {
            assert!(!script.contains(literal), "{script} hardcodes {literal}");
        }
    }
}

#[test]
fn app_less_windows_inject_an_empty_app_id() {
    assert_eq!(
        direct_env_script(&None, "holochain"),
        "window.injectHolochainTauriEnv(\"\", \"holochain\");"
    );
    assert_eq!(
        direct_env_script(&Some("a\"b".to_string()), "hc"),
        "window.injectHolochainTauriEnv(\"a\\\"b\", \"hc\");"
    );
    assert!(matches!(window_wiring(None, true, "hc"), Err(Error::WindowNotBound)));
    match window_wiring(Some("forum".into()), true, "hc").unwrap() {
        WindowWiring::LegacyWebsocket { app_id } => assert_eq!(app_id, "forum"),
        other => panic!("expected LegacyWebsocket, got {other:?}"),
    }
    match window_wiring(None, false, "hc").unwrap() {
        WindowWiring::Direct { bind, env_script } => {
            assert_eq!(bind, None);
            assert_eq!(env_script, "window.injectHolochainTauriEnv(\"\", \"hc\");");
        }
        other => panic!("expected Direct, got {other:?}"),
    }
}

#[test]
fn a_failed_rebind_keeps_the_prior_binding() {
    let mut bindings = WindowBindings::new();
    bindings.bind_window("main".into(), "app-1".into());
    bindings.bind_window("other".into(), "app-9".into());
    let seq = bindings.next_rebind_seq();
    let result = bindings.complete_rebind(
        "main".into(),
        Some("app-2".into()),
        seq,
        Err(Error::NotReady),
    );
    assert!(matches!(result, Err(Error::NotReady)));
    assert_eq!(bindings.bound_app("main").as_deref(), Some("app-1"));

    let seq = bindings.next_rebind_seq();
    bindings.complete_rebind("main".into(), None, seq, Ok(())).unwrap();
    assert_eq!(bindings.bound_app("main"), None);
    assert!(matches!(bindings.app_id_for_window("main"), Err(Error::WindowNotBound)));
    assert_eq!(bindings.app_id_for_window("other").unwrap(), "app-9");
}

#[test]
fn a_failed_boot_reports_its_cause() {
    let mut lifecycle = PluginLifecycle::new();
    assert!(matches!(lifecycle.try_runtime(), Err(Error::NotReady)));
    assert!(lifecycle.check_can_start().is_ok());
    lifecycle.finish_start(&Err(Error::Tauri("lair did not start".into())));
    match lifecycle.try_runtime() {
        Err(Error::SetupFailed(cause)) => assert_eq!(cause, "lair did not start"),
        other => panic!("expected SetupFailed, got {other:?}"),
    }
    lifecycle.finish_start(&Ok(()));
    assert!(lifecycle.try_runtime().is_ok());
    assert!(matches!(lifecycle.check_can_start(), Err(Error::AlreadyStarted)));
}

fn sign_request(nonce_len: usize, cap_secret: Option<Vec<u8>>) -> SignZomeCallRequest {
    SignZomeCallRequest {
        provenance: vec![1; 39],
        cell_id_dna_hash: vec![2; 39],
        cell_id_agent_pub_key: vec![3; 39],
        zome_name: "forum".into(),
        fn_name: "create_post".into(),
        cap_secret,
        payload: vec![9],
        nonce: vec![4; nonce_len],
        expires_at: 1_700_000_000,
    }
}

#[test]
fn zome_call_requests_are_checked_field_by_field() {
    match zome_call_params(sign_request(31, None)) {
        Err(Error::Serialization(m)) => assert_eq!(m, "nonce must be 32 bytes"),
        other => panic!("expected a nonce error, got {other:?}"),
    }
    match zome_call_params(sign_request(32, Some(vec![0; 63]))) {
        Err(Error::Serialization(m)) => assert_eq!(m, "cap secret must be 64 bytes"),
        other => panic!("expected a cap secret error, got {other:?}"),
    }
    let params = zome_call_params(sign_request(32, Some(vec![0; 64]))).unwrap();
    assert_eq!(params.cell_id.dna_hash, vec![2; 39]);
    assert_eq!(params.fn_name, "create_post");
    assert_eq!(params.expires_at, 1_700_000_000);
    assert!(zome_call_params(sign_request(32, None)).is_ok());
}

#[test]
fn a_window_locks_to_the_origin_of_its_first_navigation() {
    let origin = match lock_navigation(None, "tauri://localhost/index.html") {
        NavigationVerdict::AllowAndRecord(o) => o,
        other => panic!("expected the first navigation to record its origin, got {other:?}"),
    };
    assert_eq!(origin.as_str(), "tauri://localhost");
    assert!(matches!(
        lock_navigation(Some(&origin), "tauri://localhost/settings.html"),
        NavigationVerdict::Allow
    ));
    assert!(matches!(
        lock_navigation(Some(&origin), "blob:tauri://localhost/3f1c"),
        NavigationVerdict::Allow
    ));
    assert!(matches!(
        lock_navigation(Some(&origin), "https://evil.example/"),
        NavigationVerdict::Deny
    ));
    assert!(matches!(lock_navigation(Some(&origin), "not a url"), NavigationVerdict::Deny));
    assert!(matches!(lock_navigation(None, "not a url"), NavigationVerdict::Deny));
}

#[test]
fn an_unparsable_dev_url_gives_no_config() {
    assert!(try_dev_network_config("not a url").is_none());
    let config = try_dev_network_config("http://10.0.2.2:8888").unwrap();
    assert_eq!(config.bootstrap_url.as_str(), "http://10.0.2.2:8888/");
    assert_eq!(config.relay_url.as_str(), "http://10.0.2.2:8888/");
}

#[test]
fn queued_work_waits_for_the_conductor_and_runs_once() {
    let mut pending = PendingOnce::new(7u32);
    assert_eq!(pending.take_when_ready(false), None);
    assert_eq!(pending.take_when_ready(false), None);
    assert_eq!(pending.take_when_ready(true), Some(7));
    assert_eq!(pending.take_when_ready(true), None);
    assert_eq!(pending.take_when_ready(false), None);
}

#[test]
fn rebind_stamps_grow_with_each_rebind() {
    let mut bindings = WindowBindings::new();
    let first = bindings.next_rebind_seq();
    let second = bindings.next_rebind_seq();
    let third = bindings.next_rebind_seq();
    assert!(first < second && second < third);
}
