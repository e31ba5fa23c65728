use base64::Engine;
use holochain_conductor_runtime::authorization::ClientId;
use holochain_conductor_runtime::error::RuntimeError;
use holochain_conductor_runtime::hc_auth::{
    AuthFlow, AuthFlowAction, AuthFlowEvent, AuthFlowPhase, AuthFlowResult, HcAuthConfig,
    HcAuthStatus,
};
use holochain_conductor_runtime::network::{inject_auth_material, NetworkConfig};
use holochain_conductor_runtime::runtime::{
    apps_to_disable, check_exported_cipher_len, check_seed, device_seed_ed25519,
    first_provisioned_cell_id, is_app_installed, setup_app_plan, AdminAnswer, AdminResponse, AllowedOrigins, AppAuth,
    AppWebsocketPlan, BootAction, BootEvent, BootFlow, LairEntryInfo, RestartAction, RestartEvent,
    RestartFlow, Runtime, RuntimeBootConfig,
};
use holochain_conductor_runtime::types::{
    AgentPubKey, AppAuthenticationTokenIssuedFfi, AppInfoFfi, AppInfoStatusFfi, CellIdFfi,
    CellInfoFfi, DisabledAppReasonFfi, DnaModifiersFfi, DurationFfi, ProvisionedCellFfi,
};

fn agent_key(byte: u8) -> AgentPubKey {
    let mut raw = vec![0x84, 0x20, 0x24];
    raw.extend(std::iter::repeat(byte).take(32));
    raw.extend([0, 0, 0, 0]);
    AgentPubKey::from_raw_39(raw).unwrap()
}

fn b64url(bytes: &[u8]) -> String {
    base64::engine::general_purpose::URL_SAFE_NO_PAD.encode(bytes)
}

fn run_auth_flow(status: Result<HcAuthStatus, RuntimeError>) -> AuthFlowAction {
    let (flow, action) = AuthFlow::start(HcAuthConfig::new("https://auth.example.org/".into()));
    assert!(matches!(action, AuthFlowAction::ObtainKey));

    let (flow, action) = flow.step(AuthFlowEvent::KeyObtained(agent_key(5)));
    match &action {
        AuthFlowAction::FetchChallenge { url } => assert_eq!(url, "https://auth.example.org/now"),
        other => panic!("expected FetchChallenge, got {other:?}"),
    }

    let challenge = b64url(&[3u8; 32]);
    let (flow, action) = flow.step(AuthFlowEvent::ChallengeFetched(Ok(challenge.clone())));
    match &action {
        AuthFlowAction::SignChallenge { message } => {
            assert_eq!(&message[..18], b"hc-auth-challenge:");
            assert_eq!(&message[18..], &[3u8; 32]);
        }
        other => panic!("expected SignChallenge, got {other:?}"),
    }

    let (flow, action) = flow.step(AuthFlowEvent::ChallengeSigned(vec![0xfb, 0xff]));
    match &action {
        AuthFlowAction::Authenticate { url, body } => {
            assert_eq!(url, "https://auth.example.org/authenticate");
            let body: serde_json::Value = serde_json::from_str(body).unwrap();
            assert_eq!(body["pubKey"], b64url(&[5u8; 32]));
            assert_eq!(body["payload"], challenge);
            assert_eq!(body["signature"], "-_8");
            assert_eq!(body["scheme"], "hc-auth-challenge-v1");
        }
        other => panic!("expected Authenticate, got {other:?}"),
    }

    let (flow, action) = flow.step(AuthFlowEvent::StatusReceived(status));
    assert!(matches!(flow.phase, AuthFlowPhase::Finished));
    action
}

#[test]
fn an_authorized_flow_yields_auth_material() {
    match run_auth_flow(Ok(HcAuthStatus::Authorized)) {
        AuthFlowAction::Done(result) => {
            assert!(matches!(result.status, HcAuthStatus::Authorized));
            assert_eq!(result.raw_ed25519_b64url, b64url(&[5u8; 32]));
            let material = result.auth_material.unwrap();
            let body = base64::engine::general_purpose::STANDARD
                .decode(material)
                .unwrap();
            let body: serde_json::Value = serde_json::from_slice(&body).unwrap();
            assert_eq!(body["signature"], "-_8");
        }
        other => panic!("expected Done, got {other:?}"),
    }
}

#[test]
fn a_pending_flow_yields_no_material() {
    match run_auth_flow(Ok(HcAuthStatus::Pending)) {
        AuthFlowAction::Done(result) => {
            assert!(matches!(result.status, HcAuthStatus::Pending));
            assert!(result.auth_material.is_none());
        }
        other => panic!("expected Done, got {other:?}"),
    }
    match run_auth_flow(Err(RuntimeError::HcAuth("timeout".into()))) {
        AuthFlowAction::Done(result) => match result.status {
            HcAuthStatus::Failed(m) => assert_eq!(m, "hc-auth error: timeout"),
            other => panic!("expected Failed, got {other:?}"),
        },
        other => panic!("expected Done, got {other:?}"),
    }
}

#[test]
fn an_unusable_challenge_ends_the_flow() {
    let (flow, _) = AuthFlow::start(HcAuthConfig::new("https://auth.example.org".into()));
    let (flow, _) = flow.step(AuthFlowEvent::KeyObtained(agent_key(1)));
    let (flow, action) = flow.step(AuthFlowEvent::ChallengeFetched(Ok(b64url(&[1u8; 31]))));
    assert!(matches!(flow.phase, AuthFlowPhase::Finished));
    match action {
        AuthFlowAction::Done(result) => match result.status {
            HcAuthStatus::Failed(m) => {
                assert!(m.starts_with("Unusable challenge: hc-auth error: "));
                assert!(m.contains("32 bytes"));
            }
            other => panic!("expected Failed, got {other:?}"),
        },
        other => panic!("expected Done, got {other:?}"),
    }

    let (flow, _) = AuthFlow::start(HcAuthConfig::new("https://auth.example.org".into()));
    let (flow, _) = flow.step(AuthFlowEvent::KeyObtained(agent_key(1)));
    let (_, action) = flow.step(AuthFlowEvent::ChallengeFetched(Err(RuntimeError::HcAuth(
        "connection refused".into(),
    ))));
    match action {
        AuthFlowAction::Done(result) => match result.status {
            HcAuthStatus::Failed(m) => {
                assert_eq!(m, "Auth server unreachable: hc-auth error: connection refused")
            }
            other => panic!("expected Failed, got {other:?}"),
        },
        other => panic!("expected Done, got {other:?}"),
    }
}

fn open_boot(pending_seed: Option<Vec<u8>>) -> RuntimeBootConfig {
    let mut boot = RuntimeBootConfig::with_network_config(
        "/tmp/holochain-boot".into(),
        NetworkConfig::default_config().unwrap(),
    );
    boot.pending_import_seed = pending_seed;
    boot
}

#[test]
fn an_open_mode_boot_runs_every_step_in_order() {
    let (flow, action) = BootFlow::start(open_boot(None));
    match &action {
        BootAction::SpawnLair { keystore_config_path } => {
            assert_eq!(keystore_config_path, "/tmp/holochain-boot/lair-keystore-config.yaml")
        }
        other => panic!("expected SpawnLair, got {other:?}"),
    }
    let (flow, action) = flow.step(BootEvent::LairSpawned(Ok(())));
    assert!(matches!(action, BootAction::CheckDeviceSeed));
    let (flow, action) = flow.step(BootEvent::DeviceSeedChecked(false));
    assert!(matches!(action, BootAction::GenerateDeviceSeed));
    let (flow, action) = flow.step(BootEvent::SeedReady(Ok(())));
    assert!(matches!(
        action,
        BootAction::ReadDeviceKey {
            pending_seed_ignored: false
        }
    ));
    let (flow, action) = flow.step(BootEvent::DeviceKeyRead(Ok(agent_key(7))));
    match &action {
        BootAction::BuildConductor { config } => {
            assert_eq!(config.data_root_path.as_deref(), Some("/tmp/holochain-boot"));
        }
        other => panic!("expected BuildConductor, got {other:?}"),
    }
    let (flow, action) = flow.step(BootEvent::ConductorBuilt(Ok(())));
    match &action {
        BootAction::LoadAuthorizations { path } => assert_eq!(
            path,
            "/tmp/holochain-boot/authorized_app_clients.msgpack"
        ),
        other => panic!("expected LoadAuthorizations, got {other:?}"),
    }
    let (_, action) = flow.step(BootEvent::AuthorizationsLoaded(Ok(None)));
    match action {
        BootAction::Started(mut rt) => {
            assert_eq!(rt.device_agent_key().get_raw_32(), vec![7u8; 32]);
            assert!(!rt.is_hc_auth_configured());
            assert!(!rt.is_app_client_authorized(None, &ClientId("c".into()), "app"));
            rt.authorize_app_client(ClientId("c".into()), "app".into());
            assert!(rt.is_app_client_authorized(None, &ClientId("c".into()), "app"));
        }
        other => panic!("expected Started, got {other:?}"),
    }
}

#[test]
fn a_pending_seed_is_imported_only_when_none_exists() {
    let seed = vec![9u8; 32];
    let (flow, _) = BootFlow::start(open_boot(Some(seed.clone())));
    let (flow, _) = flow.step(BootEvent::LairSpawned(Ok(())));
    let (_, action) = flow.step(BootEvent::DeviceSeedChecked(false));
    match action {
        BootAction::ImportDeviceSeed { seed: s } => assert_eq!(s, seed),
        other => panic!("expected ImportDeviceSeed, got {other:?}"),
    }

    let (flow, _) = BootFlow::start(open_boot(Some(seed)));
    let (flow, _) = flow.step(BootEvent::LairSpawned(Ok(())));
    let (_, action) = flow.step(BootEvent::DeviceSeedChecked(true));
    assert!(matches!(
        action,
        BootAction::ReadDeviceKey {
            pending_seed_ignored: true
        }
    ));
}

#[test]
fn a_failed_step_fails_the_boot_with_its_error() {
    let (flow, _) = BootFlow::start(open_boot(None));
    let (_, action) = flow.step(BootEvent::LairSpawned(Err(RuntimeError::Lair(
        "socket in use".into(),
    ))));
    match action {
        BootAction::Failed(e) => assert_eq!(e.message(), "Lair Error: socket in use"),
        other => panic!("expected Failed, got {other:?}"),
    }
}

#[test]
fn seeds_and_exports_are_length_checked() {
    assert!(check_seed(&[0u8; 32]).is_ok());
    match check_seed(&[0u8; 31]) {
        Err(RuntimeError::AgentSeed(m)) => assert_eq!(m, "seed must be exactly 32 bytes, got 31"),
        other => panic!("expected AgentSeed, got {other:?}"),
    }
    assert!(check_exported_cipher_len(48).is_ok());
    match check_exported_cipher_len(47) {
        Err(RuntimeError::AgentSeed(m)) => assert_eq!(m, "unexpected exported cipher length 47"),
        other => panic!("expected AgentSeed, got {other:?}"),
    }
    assert_eq!(
        device_seed_ed25519(&LairEntryInfo::DeepLockedSeed {
            ed25519_pub_key: vec![1, 2, 3]
        })
        .unwrap(),
        vec![1, 2, 3]
    );
    assert!(matches!(
        device_seed_ed25519(&LairEntryInfo::Other),
        Err(RuntimeError::AgentSeed(_))
    ));
}

#[test]
fn setup_installs_new_apps_and_enables_them_only_when_asked() {
    let plan = setup_app_plan(Some("forum".into()), false, true).unwrap();
    assert!(plan.install && plan.enable);
    let plan = setup_app_plan(Some("forum".into()), false, false).unwrap();
    assert!(plan.install && !plan.enable);
    let plan = setup_app_plan(Some("forum".into()), true, true).unwrap();
    assert!(!plan.install && !plan.enable);
    assert!(matches!(
        setup_app_plan(None, false, true),
        Err(RuntimeError::InstalledAppIdNotSpecified)
    ));
}

fn modifiers() -> DnaModifiersFfi {
    DnaModifiersFfi {
        network_seed: String::new(),
        properties: vec![],
        origin_time: 0,
        quantum_time: DurationFfi::new(60, 0),
    }
}

fn app(id: &str, status: AppInfoStatusFfi, dna: u8) -> AppInfoFfi {
    AppInfoFfi {
        installed_app_id: id.into(),
        cell_info: vec![(
            "main".into(),
            vec![CellInfoFfi::Provisioned(ProvisionedCellFfi {
                cell_id: CellIdFfi {
                    dna_hash: vec![dna; 39],
                    agent_pub_key: vec![1; 39],
                },
                dna_modifiers: modifiers(),
                name: "main".into(),
            })],
        )],
        status,
        agent_pub_key: vec![1; 39],
    }
}

#[test]
fn the_app_list_answers_installs_cells_and_shutdowns() {
    let apps = vec![
        app("forum", AppInfoStatusFfi::Running, 4),
        app(
            "chat",
            AppInfoStatusFfi::Disabled {
                reason: DisabledAppReasonFfi::User,
            },
            5,
        ),
        app("files", AppInfoStatusFfi::Running, 6),
    ];
    assert!(is_app_installed(&apps, "chat"));
    assert!(!is_app_installed(&apps, "wiki"));
    assert_eq!(apps_to_disable(&apps), vec!["forum".to_string(), "files".to_string()]);
    assert_eq!(first_provisioned_cell_id(&apps, "chat").unwrap().dna_hash, vec![5; 39]);
    match first_provisioned_cell_id(&apps, "wiki") {
        Err(RuntimeError::InvalidArguments(m)) => assert_eq!(m, "app not installed: wiki"),
        other => panic!("expected InvalidArguments, got {other:?}"),
    }
}

fn answer(response: AdminResponse, debug_text: &str) -> AdminAnswer {
    AdminAnswer {
        response,
        debug_text: debug_text.into(),
    }
}

#[test]
fn unexpected_admin_answers_are_bad_responses() {
    match answer(AdminResponse::AppDisabled, "AppDisabled").app_uninstalled() {
        Err(RuntimeError::AdminApiBadResponse(m)) => assert_eq!(m, "AppDisabled"),
        other => panic!("expected a bad response, got {other:?}"),
    }
    let error = answer(AdminResponse::Other, "Error(AppNotInstalled(\"x\"))")
        .app_enabled()
        .unwrap_err();
    assert_eq!(
        error.message(),
        "Admin Api Bad Response: Error(AppNotInstalled(\"x\"))"
    );
    assert!(answer(AdminResponse::AppUninstalled, "AppUninstalled")
        .app_uninstalled()
        .is_ok());
    assert_eq!(
        answer(AdminResponse::AppInterfaceAttached { port: 4321 }, "")
            .app_interface_attached()
            .unwrap(),
        4321
    );
}

fn started_runtime() -> Runtime {
    let (flow, _) = BootFlow::start(open_boot(None));
    let (flow, _) = flow.step(BootEvent::LairSpawned(Ok(())));
    let (flow, _) = flow.step(BootEvent::DeviceSeedChecked(true));
    let (flow, _) = flow.step(BootEvent::DeviceKeyRead(Ok(agent_key(2))));
    let (flow, _) = flow.step(BootEvent::ConductorBuilt(Ok(())));
    match flow.step(BootEvent::AuthorizationsLoaded(Ok(None))).1 {
        BootAction::Started(rt) => rt,
        other => panic!("expected Started, got {other:?}"),
    }
}

#[test]
fn an_app_websocket_is_created_once_and_then_reused() {
    let mut rt = started_runtime();
    match rt.app_websocket_plan("forum") {
        AppWebsocketPlan::Create { token, attach } => {
            assert_eq!(token.installed_app_id, "forum");
            assert_eq!(token.expiry_seconds, 0);
            assert!(!token.single_use);
            assert_eq!(attach.port, None);
            assert_eq!(attach.installed_app_id.as_deref(), Some("forum"));
        }
        other => panic!("expected Create, got {other:?}"),
    }
    rt.record_app_websocket(
        "forum".into(),
        AppAuth {
            authentication: AppAuthenticationTokenIssuedFfi {
                token: vec![1, 2, 3],
                expires_at: None,
            },
            port: 4321,
            allowed_origins: AllowedOrigins::Any,
        },
    );
    match rt.app_websocket_plan("forum") {
        AppWebsocketPlan::Cached(a) => {
            assert!(matches!(a.allowed_origins, AllowedOrigins::Any));
            assert_eq!(a.port, 4321);
            assert_eq!(a.authentication.token, vec![1, 2, 3]);
        }
        other => panic!("expected Cached, got {other:?}"),
    }
}

#[test]
fn a_restart_needs_hc_auth() {
    let rt = started_runtime();
    match rt.restart_config() {
        Err(RuntimeError::HcAuth(m)) => assert_eq!(m, "hc-auth not configured"),
        other => panic!("expected HcAuth, got {other:?}"),
    }
}

#[test]
fn auth_material_lands_only_in_the_chosen_slots() {
    let mut network = NetworkConfig::default_config().unwrap();
    let bootstrap = network.bootstrap_url.as_str().to_string();
    let material = Some("bWF0ZXJpYWw=".to_string());
    inject_auth_material(&mut network, &material, true, false);
    assert_eq!(network.base64_auth_material_bootstrap.as_deref(), Some("bWF0ZXJpYWw="));
    assert_eq!(network.base64_auth_material_relay, None);
    inject_auth_material(&mut network, &material, true, false);
    assert_eq!(network.base64_auth_material_bootstrap.as_deref(), Some("bWF0ZXJpYWw="));
    assert_eq!(network.base64_auth_material_relay, None);
    assert_eq!(network.bootstrap_url.as_str(), bootstrap);

    inject_auth_material(&mut network, &None, true, true);
    assert_eq!(network.base64_auth_material_relay, None);
    inject_auth_material(&mut network, &Some("b3RoZXI=".to_string()), false, true);
    assert_eq!(network.base64_auth_material_bootstrap.as_deref(), Some("bWF0ZXJpYWw="));
    assert_eq!(network.base64_auth_material_relay.as_deref(), Some("b3RoZXI="));
}

#[test]
fn a_pending_seed_of_the_wrong_length_fails_the_boot() {
    let (flow, _) = BootFlow::start(open_boot(Some(vec![1u8; 33])));
    let (flow, _) = flow.step(BootEvent::LairSpawned(Ok(())));
    let (flow, action) = flow.step(BootEvent::DeviceSeedChecked(false));
    match action {
        BootAction::Failed(RuntimeError::AgentSeed(m)) => {
            assert_eq!(m, "seed must be exactly 32 bytes, got 33")
        }
        other => panic!("expected Failed(AgentSeed), got {other:?}"),
    }
    assert_eq!(flow.boot.pending_import_seed, Some(vec![1u8; 33]));
}

#[test]
fn a_boot_keeps_its_network_and_pending_seed_throughout() {
    let seed = vec![4u8; 32];
    let boot = open_boot(Some(seed.clone()));
    let bootstrap = boot.network.bootstrap_url.as_str().to_string();
    let (flow, _) = BootFlow::start(boot);
    let (flow, _) = flow.step(BootEvent::LairSpawned(Ok(())));
    assert_eq!(flow.boot.pending_import_seed, Some(seed.clone()));
    let (flow, _) = flow.step(BootEvent::DeviceSeedChecked(false));
    let (flow, _) = flow.step(BootEvent::SeedReady(Ok(())));
    let (flow, action) = flow.step(BootEvent::DeviceKeyRead(Ok(agent_key(3))));
    match &action {
        BootAction::BuildConductor { config } => {
            assert_eq!(config.network.bootstrap_url.as_str(), bootstrap)
        }
        other => panic!("expected BuildConductor, got {other:?}"),
    }
    assert_eq!(flow.boot.pending_import_seed, Some(seed));
    assert_eq!(flow.boot.network.bootstrap_url.as_str(), bootstrap);
}

fn hc_auth_runtime() -> Runtime {
    let mut boot = open_boot(None);
    boot.hc_auth = Some(HcAuthConfig::new("https://auth.example.org".into()));
    let (flow, _) = BootFlow::start(boot);
    let (flow, _) = flow.step(BootEvent::LairSpawned(Ok(())));
    let (flow, _) = flow.step(BootEvent::DeviceSeedChecked(true));
    let (flow, action) = flow.step(BootEvent::DeviceKeyRead(Ok(agent_key(2))));
    assert!(matches!(action, BootAction::RunAuthFlow { .. }));
    let (flow, _) = flow.step(BootEvent::AuthFlowFinished(Err(RuntimeError::HcAuth(
        "offline".into(),
    ))));
    let (flow, _) = flow.step(BootEvent::ConductorBuilt(Ok(())));
    match flow.step(BootEvent::AuthorizationsLoaded(Ok(None))).1 {
        BootAction::Started(rt) => rt,
        other => panic!("expected Started, got {other:?}"),
    }
}

#[test]
fn a_restart_runs_its_steps_in_order() {
    assert!(matches!(
        RestartFlow::start(&started_runtime(), NetworkConfig::default_config().unwrap(), true, false),
        Err(RuntimeError::HcAuth(_))
    ));

    let rt = hc_auth_runtime();
    let (flow, action) =
        RestartFlow::start(&rt, NetworkConfig::default_config().unwrap(), true, false).unwrap();
    assert!(matches!(action, RestartAction::ListApps));
    let apps = vec![
        app("forum", AppInfoStatusFfi::Running, 1),
        app("chat", AppInfoStatusFfi::Disabled { reason: DisabledAppReasonFfi::User }, 2),
    ];
    let (flow, action) = flow.step(RestartEvent::AppsListed(Ok(apps)));
    match &action {
        RestartAction::DisableApps { app_ids } => assert_eq!(app_ids, &vec!["forum".to_string()]),
        other => panic!("expected DisableApps, got {other:?}"),
    }
    let (flow, action) = flow.step(RestartEvent::AppsDisabled);
    assert!(matches!(action, RestartAction::ShutDownConductor));
    let (flow, action) = flow.step(RestartEvent::ConductorShutDown(Ok(())));
    match &action {
        RestartAction::RunAuthFlow { config } => {
            assert_eq!(config.auth_server_url, "https://auth.example.org")
        }
        other => panic!("expected RunAuthFlow, got {other:?}"),
    }
    let result = AuthFlowResult {
        status: HcAuthStatus::Authorized,
        auth_material: Some("bWF0ZXJpYWw=".into()),
        agent_key: agent_key(6),
        raw_ed25519_b64url: b64url(&[6u8; 32]),
    };
    let (flow, action) = flow.step(RestartEvent::AuthFlowFinished(Ok(result)));
    match &action {
        RestartAction::BuildConductor { config } => {
            assert_eq!(config.data_root_path.as_deref(), Some("/tmp/holochain-boot"));
            assert_eq!(
                config.network.base64_auth_material_bootstrap.as_deref(),
                Some("bWF0ZXJpYWw=")
            );
            assert_eq!(config.network.base64_auth_material_relay, None);
        }
        other => panic!("expected BuildConductor, got {other:?}"),
    }
    let (flow, action) = flow.step(RestartEvent::ConductorBuilt(Ok(())));
    match &action {
        RestartAction::LoadAuthorizations { path } => {
            assert_eq!(path, "/tmp/holochain-boot/authorized_app_clients.msgpack")
        }
        other => panic!("expected LoadAuthorizations, got {other:?}"),
    }
    match flow.step(RestartEvent::AuthorizationsLoaded(Ok(None))).1 {
        RestartAction::Restarted(new_rt) => {
            assert_eq!(new_rt.device_agent_key().get_raw_32(), vec![2u8; 32]);
            assert!(matches!(new_rt.hc_auth_status(), HcAuthStatus::Authorized));
            assert_eq!(new_rt.hc_auth_raw_ed25519_b64url(), Some(b64url(&[6u8; 32])));
        }
        other => panic!("expected Restarted, got {other:?}"),
    }
}

#[test]
fn a_failed_restart_step_ends_the_restart() {
    let rt = hc_auth_runtime();
    let (flow, _) =
        RestartFlow::start(&rt, NetworkConfig::default_config().unwrap(), true, true).unwrap();
    let (flow, _) = flow.step(RestartEvent::AppsListed(Ok(vec![])));
    let (flow, _) = flow.step(RestartEvent::AppsDisabled);
    let (_, action) = flow.step(RestartEvent::ConductorShutDown(Err(RuntimeError::ConductorShutdown(
        "busy".into(),
    ))));
    match action {
        RestartAction::Failed(RuntimeError::ConductorShutdown(m)) => assert_eq!(m, "busy"),
        other => panic!("expected Failed, got {other:?}"),
    }
}
