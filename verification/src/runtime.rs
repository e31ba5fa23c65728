//! The conductor runtime's decisions: how it boots (keystore first, then the
//! device seed, the hc-auth flow and the conductor on that same keystore), how
//! it reads the conductor's admin answers, which app interface each app gets,
//! and how an hc-auth restart rebuilds it.
//!
//! The conductor and the lair keystore are the host's: [`BootFlow`] and the
//! functions here say what to ask them and what their answers mean.

use vstd::prelude::*;
use crate::authorization::{AuthorizedAppClients, AuthorizedAppClientsManager, ClientId, PERSISTED_FILE_NAME};
use crate::config::{join_path, path_join, RuntimeNetworkConfig, DEVICE_SEED_LAIR_TAG};
use crate::error::{RuntimeError, RuntimeResult, runtime_error_message, concat};
use crate::hc_auth::{AuthFlowResult, HcAuthConfig, HcAuthStatus};
use crate::network::{NetworkConfig, inject_auth_material, with_auth_material};
use crate::string_map::StringMap;
use crate::text::{decimal, decimal_string};
use crate::types::{AgentPubKey, AppAuthenticationTokenIssuedFfi, AppInfoFfi, AppInfoStatusFfi, CellIdFfi, CellInfoFfi, HOLO_HASH_CORE_LEN};

verus! {

broadcast use vstd::string::group_string_axioms;

/// Where the keystore of an in-process conductor lives.
#[derive(Clone, Debug)]
pub enum KeystoreConfig {
    /// Lair runs in process; `None` puts it at the data root.
    LairServerInProc { lair_root: Option<String> },
}

/// The settings a conductor is built with.
#[derive(Clone, Debug)]
pub struct ConductorConfig {
    pub data_root_path: Option<String>,
    pub keystore: KeystoreConfig,
    pub network: NetworkConfig,
}

/// The conductor settings for a data root and a network: data at the root, lair
/// in process at the root too.
pub fn conductor_config(data_root_path: &str, network: NetworkConfig) -> (r: ConductorConfig)
    ensures
        r.data_root_path matches Some(p) && p@ == data_root_path@,
        r.keystore matches KeystoreConfig::LairServerInProc { lair_root } && lair_root is None,
        r.network == network,
{
    ConductorConfig {
        data_root_path: Some(String::from_str(data_root_path)),
        keystore: KeystoreConfig::LairServerInProc { lair_root: None },
        network,
    }
}

/// Where conductor data is stored and which servers it uses.
#[derive(Clone, Debug)]
pub struct RuntimeConfig {
    /// Path where conductor data is stored
    pub data_root_path: String,
    /// Network config
    pub network: RuntimeNetworkConfig,
}

impl RuntimeConfig {
    /// The conductor settings of this config.
    pub fn into_conductor_config(self) -> (r: ConductorConfig)
        ensures
            r.data_root_path matches Some(p) && p@ == self.data_root_path@,
            r.keystore matches KeystoreConfig::LairServerInProc { lair_root } && lair_root is None,
            r.network.bootstrap_url == self.network.bootstrap_url,
            r.network.relay_url == self.network.relay_url,
            r.network.base64_auth_material_bootstrap is None,
            r.network.base64_auth_material_relay is None,
            r.network.advanced is None,
    {
        let network = NetworkConfig::from_runtime_network_config(self.network);
        conductor_config(self.data_root_path.as_str(), network)
    }
}

/// Boot parameters: the data root, the network config, the optional hc-auth
/// config and an optional pending device-seed import.
#[derive(Debug)]
pub struct RuntimeBootConfig {
    pub data_root_path: String,
    pub network: NetworkConfig,
    /// If set, run the hc-auth flow before bringing the conductor up and inject
    /// the resulting material into the network config.
    pub hc_auth: Option<HcAuthConfig>,
    /// If set (must be 32 bytes), import this as the device seed when none
    /// exists yet, so the first install with no agent key derives this
    /// identity. Ignored if a device seed already exists.
    pub pending_import_seed: Option<Vec<u8>>,
}

impl RuntimeBootConfig {
    /// The boot parameters of a [`RuntimeConfig`]: open mode, no pending seed.
    pub fn from_runtime_config(runtime_config: RuntimeConfig) -> (r: RuntimeBootConfig)
        ensures
            r.data_root_path == runtime_config.data_root_path,
            r.network.bootstrap_url == runtime_config.network.bootstrap_url,
            r.network.relay_url == runtime_config.network.relay_url,
            r.network.base64_auth_material_bootstrap is None,
            r.network.base64_auth_material_relay is None,
            r.network.advanced is None,
            r.hc_auth is None,
            r.pending_import_seed is None,
    {
        RuntimeBootConfig {
            data_root_path: runtime_config.data_root_path,
            network: NetworkConfig::from_runtime_network_config(runtime_config.network),
            hc_auth: None,
            pending_import_seed: None,
        }
    }

    /// Open-mode boot parameters: no hc-auth, no pending seed.
    pub fn with_network_config(data_root_path: String, network: NetworkConfig) -> (r: RuntimeBootConfig)
        ensures
            r.data_root_path == data_root_path,
            r.network == network,
            r.hc_auth is None,
            r.pending_import_seed is None,
    {
        RuntimeBootConfig { data_root_path, network, hc_auth: None, pending_import_seed: None }
    }
}

/// Length of a seed.
pub const SEED_LEN: usize = 32;

/// Length of the MAC of an `xsalsa20poly1305` box.
pub const XSALSA_MACBYTES: usize = 16;

/// Check that a seed to import is exactly [`SEED_LEN`] bytes.
pub fn check_seed(seed: &[u8]) -> (r: RuntimeResult<()>)
    ensures
        seed@.len() == SEED_LEN ==> r is Ok,
        seed@.len() != SEED_LEN ==> (r matches Err(RuntimeError::AgentSeed(m))
            && m@ == "seed must be exactly 32 bytes, got "@ + decimal(seed@.len())),
{
    if seed.len() != SEED_LEN {
        let n = decimal_string(seed.len() as u64);
        return Err(RuntimeError::AgentSeed(concat("seed must be exactly 32 bytes, got ", n.as_str())));
    }
    Ok(())
}

/// Check that an exported, boxed seed has the length of a boxed 32-byte seed.
pub fn check_exported_cipher_len(len: usize) -> (r: RuntimeResult<()>)
    ensures
        len == SEED_LEN + XSALSA_MACBYTES ==> r is Ok,
        len != SEED_LEN + XSALSA_MACBYTES ==> (r matches Err(RuntimeError::AgentSeed(m))
            && m@ == "unexpected exported cipher length "@ + decimal(len as nat)),
{
    if len != SEED_LEN + XSALSA_MACBYTES {
        let n = decimal_string(len as u64);
        return Err(RuntimeError::AgentSeed(concat("unexpected exported cipher length ", n.as_str())));
    }
    Ok(())
}

/// What lair holds under a tag, as far as the device key is concerned.
#[derive(Clone, Debug)]
pub enum LairEntryInfo {
    /// A seed, with its Ed25519 public key.
    Seed { ed25519_pub_key: Vec<u8> },
    /// A passphrase-locked seed, with its Ed25519 public key.
    DeepLockedSeed { ed25519_pub_key: Vec<u8> },
    /// Anything else.
    Other,
}

/// The Ed25519 key of the device seed's lair entry, which must be a seed.
pub fn device_seed_ed25519(entry: &LairEntryInfo) -> (r: RuntimeResult<Vec<u8>>)
    ensures
        match *entry {
            LairEntryInfo::Seed { ed25519_pub_key } => r matches Ok(k) && k@ == ed25519_pub_key@,
            LairEntryInfo::DeepLockedSeed { ed25519_pub_key } => r matches Ok(k) && k@ == ed25519_pub_key@,
            LairEntryInfo::Other => r matches Err(RuntimeError::AgentSeed(m))
                && m@ == "device seed entry is not a seed"@,
        },
{
    match entry {
        LairEntryInfo::Seed { ed25519_pub_key } => Ok(ed25519_pub_key.clone()),
        LairEntryInfo::DeepLockedSeed { ed25519_pub_key } => Ok(ed25519_pub_key.clone()),
        LairEntryInfo::Other => Err(RuntimeError::AgentSeed(String::from_str("device seed entry is not a seed"))),
    }
}

/// The key a zome call is signed with: the raw 32 bytes of its provenance.
pub fn signer_key(provenance: &AgentPubKey) -> (r: RuntimeResult<Vec<u8>>)
    requires
        provenance.well_formed(),
    ensures
        r matches Ok(k) && k@ == provenance.raw_32() && k@.len() == HOLO_HASH_CORE_LEN,
{
    Ok(provenance.get_raw_32())
}

/// The hc-auth outcome of a boot: the status, the agent key in both forms, and
/// the network config with any material injected.
#[derive(Debug)]
pub struct BootAuth {
    pub network: NetworkConfig,
    pub status: HcAuthStatus,
    pub agent_key: Option<AgentPubKey>,
    pub raw_ed25519_b64url: Option<String>,
}

/// What a boot makes of the hc-auth flow's outcome.
pub open spec fn boot_auth_spec(r: BootAuth, network: NetworkConfig, hc_auth: Option<HcAuthConfig>, flow: Option<RuntimeResult<AuthFlowResult>>) -> bool {
    match (hc_auth, flow) {
        (None, _) => {
            &&& r.network == network
            &&& r.status matches HcAuthStatus::Failed(m) && m@ == "Not configured"@
            &&& r.agent_key is None
            &&& r.raw_ed25519_b64url is None
        },
        (Some(cfg), Some(Ok(result))) => {
            &&& r.network == with_auth_material(network, result.auth_material, cfg.auth_bootstrap, cfg.auth_relay)
            &&& r.status == result.status
            &&& r.agent_key == Some(result.agent_key)
            &&& r.raw_ed25519_b64url == Some(result.raw_ed25519_b64url)
        },
        (Some(_), Some(Err(e))) => {
            &&& r.network == network
            &&& r.status matches HcAuthStatus::Failed(m) && m@ == runtime_error_message(e)
            &&& r.agent_key is None
            &&& r.raw_ed25519_b64url is None
        },
        (Some(_), None) => false,
    }
}

/// A boot whose hc-auth flow finished with material builds its conductor with
/// that material in every slot the hc-auth config selects, on the same URLs;
/// a slot the config does not select keeps what the network had.
pub proof fn boot_injects_the_auth_material(r: BootAuth, network: NetworkConfig, cfg: HcAuthConfig, result: AuthFlowResult, m: String)
    requires
        result.auth_material == Some(m),
        boot_auth_spec(r, network, Some(cfg), Some(Ok::<AuthFlowResult, RuntimeError>(result))),
    ensures
        cfg.auth_bootstrap ==> r.network.base64_auth_material_bootstrap == Some(m),
        cfg.auth_relay ==> r.network.base64_auth_material_relay == Some(m),
        !cfg.auth_bootstrap ==> r.network.base64_auth_material_bootstrap == network.base64_auth_material_bootstrap,
        !cfg.auth_relay ==> r.network.base64_auth_material_relay == network.base64_auth_material_relay,
        r.network.bootstrap_url == network.bootstrap_url,
        r.network.relay_url == network.relay_url,
        r.status == result.status,
{
}

/// A boot whose hc-auth flow failed, or that has no hc-auth, builds its
/// conductor on the network as given.
pub proof fn boot_without_auth_material_keeps_the_network(r: BootAuth, network: NetworkConfig, hc_auth: Option<HcAuthConfig>, flow: Option<RuntimeResult<AuthFlowResult>>)
    requires
        boot_auth_spec(r, network, hc_auth, flow),
        hc_auth is None || flow matches Some(Err(_)) || (flow matches Some(Ok(res)) && res.auth_material is None),
    ensures
        r.network == network,
{
}

/// Fold the hc-auth flow's outcome into the boot: without hc-auth the status is
/// `Failed("Not configured")`; a flow that errored leaves the network as it was
/// with the error as the status; a flow that finished injects its material, if
/// any, into the slots the config selects.
pub fn boot_auth_outcome(network: NetworkConfig, hc_auth: &Option<HcAuthConfig>, flow: Option<RuntimeResult<AuthFlowResult>>) -> (r: BootAuth)
    requires
        hc_auth is Some ==> flow is Some,
    ensures
        boot_auth_spec(r, network, *hc_auth, flow),
        r.network.bootstrap_url == network.bootstrap_url,
        r.network.relay_url == network.relay_url,
        r.network.advanced == network.advanced,
        hc_auth matches Some(cfg) ==> (flow matches Some(Ok(result)) ==> (result.auth_material matches Some(m) ==> {
            &&& cfg.auth_bootstrap ==> r.network.base64_auth_material_bootstrap == Some(m)
            &&& cfg.auth_relay ==> r.network.base64_auth_material_relay == Some(m)
        })),
        hc_auth matches Some(cfg) ==> (!cfg.auth_bootstrap
            ==> r.network.base64_auth_material_bootstrap == network.base64_auth_material_bootstrap),
        hc_auth matches Some(cfg) ==> (!cfg.auth_relay
            ==> r.network.base64_auth_material_relay == network.base64_auth_material_relay),
        hc_auth is None ==> r.network == network,
        flow matches Some(Err(_)) ==> r.network == network,
{
    match hc_auth {
        None => BootAuth {
            network,
            status: HcAuthStatus::Failed(String::from_str("Not configured")),
            agent_key: None,
            raw_ed25519_b64url: None,
        },
        Some(cfg) => match flow {
            Some(Ok(result)) => {
                let mut network = network;
                inject_auth_material(&mut network, &result.auth_material, cfg.auth_bootstrap, cfg.auth_relay);
                BootAuth {
                    network,
                    status: result.status,
                    agent_key: Some(result.agent_key),
                    raw_ed25519_b64url: Some(result.raw_ed25519_b64url),
                }
            },
            Some(Err(e)) => BootAuth {
                network,
                status: HcAuthStatus::Failed(e.message()),
                agent_key: None,
                raw_ed25519_b64url: None,
            },
            None => {
                proof { assert(false); }
                BootAuth { network, status: HcAuthStatus::Pending, agent_key: None, raw_ed25519_b64url: None }
            },
        },
    }
}

/// An app websocket: the token issued for the app, the port of its app
/// interface, and the `Origin` values that interface accepts.
#[derive(Clone, Debug)]
pub struct AppAuth {
    pub authentication: AppAuthenticationTokenIssuedFfi,
    pub port: u16,
    pub allowed_origins: AllowedOrigins,
}

/// The accepted origins as text: `None` for any origin.
pub open spec fn origins_view(o: AllowedOrigins) -> Option<Seq<Seq<char>>> {
    match o {
        AllowedOrigins::Any => None,
        AllowedOrigins::Origins(v) => Some(crate::authorization::app_ids_view(v@)),
    }
}

/// Whether two app websocket records hold the same token, expiry, port and
/// accepted origins.
pub open spec fn same_app_auth(a: AppAuth, b: AppAuth) -> bool {
    &&& a.authentication.token@ == b.authentication.token@
    &&& a.authentication.expires_at == b.authentication.expires_at
    &&& a.port == b.port
    &&& origins_view(a.allowed_origins) == origins_view(b.allowed_origins)
}

/// A copy of an app websocket record.
pub fn copy_app_auth(a: &AppAuth) -> (r: AppAuth)
    ensures
        same_app_auth(r, *a),
{
    let allowed_origins = match &a.allowed_origins {
        AllowedOrigins::Any => AllowedOrigins::Any,
        AllowedOrigins::Origins(v) => AllowedOrigins::Origins(crate::authorization::clone_strings(v)),
    };
    AppAuth {
        authentication: AppAuthenticationTokenIssuedFfi {
            token: crate::text::copy_bytes(&a.authentication.token),
            expires_at: a.authentication.expires_at,
        },
        port: a.port,
        allowed_origins,
    }
}

/// The conductor runtime's own state: the app websockets it has handed out, the
/// client authorizations, the device key, and the hc-auth state. The conductor
/// and keystore handles live with the host.
#[derive(Debug)]
pub struct Runtime {
    /// App id to the app websocket created for it.
    pub app_auths: StringMap<AppAuth>,
    pub authorized_app_clients: AuthorizedAppClientsManager,
    /// The device seed's own Ed25519 key: the deterministic agent identity that
    /// backup and restore of the device seed reproduce.
    pub device_agent_key: AgentPubKey,
    /// Conductor data root (also the lair root).
    pub data_root_path: String,
    /// hc-auth config when authenticated mode is in use; `None` in open mode.
    pub hc_auth_config: Option<HcAuthConfig>,
    pub hc_auth_status: HcAuthStatus,
    pub hc_auth_agent_key: Option<AgentPubKey>,
    pub hc_auth_raw_ed25519_b64url: Option<String>,
}

/// Where a boot stands.
#[derive(Debug)]
pub enum BootPhase {
    AwaitingLair,
    AwaitingSeedCheck,
    AwaitingSeed,
    AwaitingDeviceKey,
    AwaitingAuthFlow { device_agent_key: AgentPubKey },
    AwaitingConductor { device_agent_key: AgentPubKey, auth: BootAuth },
    AwaitingAuthorizations { device_agent_key: AgentPubKey, auth: BootAuth },
    Finished,
}

/// What the host reports back to a boot.
#[derive(Debug)]
pub enum BootEvent {
    /// Lair was spawned in process, or why not.
    LairSpawned(RuntimeResult<()>),
    /// Whether lair already holds a device seed.
    DeviceSeedChecked(bool),
    /// The device seed was imported or generated, or why not.
    SeedReady(RuntimeResult<()>),
    /// The device seed's agent key, or why it could not be read.
    DeviceKeyRead(RuntimeResult<AgentPubKey>),
    /// The hc-auth flow's outcome.
    AuthFlowFinished(RuntimeResult<AuthFlowResult>),
    /// The conductor was built, or why not.
    ConductorBuilt(RuntimeResult<()>),
    /// What the authorizations file holds (`None` when there is none), or why
    /// it could not be read.
    AuthorizationsLoaded(RuntimeResult<Option<AuthorizedAppClients>>),
}

/// What a boot asks the host to do next.
#[derive(Debug)]
pub enum BootAction {
    /// Spawn lair in process with the config file at this path.
    SpawnLair { keystore_config_path: String },
    /// Ask lair whether it holds an entry under [`DEVICE_SEED_LAIR_TAG`].
    CheckDeviceSeed,
    /// Import this seed under [`DEVICE_SEED_LAIR_TAG`], exportable.
    ImportDeviceSeed { seed: Vec<u8> },
    /// Generate a fresh exportable seed under [`DEVICE_SEED_LAIR_TAG`].
    GenerateDeviceSeed,
    /// Read the device seed's agent key; `pending_seed_ignored` when a pending
    /// seed was given but a device seed already existed.
    ReadDeviceKey { pending_seed_ignored: bool },
    /// Run the hc-auth flow with this config.
    RunAuthFlow { config: HcAuthConfig },
    /// Build the conductor with this config against the spawned lair.
    BuildConductor { config: ConductorConfig },
    /// Read the authorizations file at this path.
    LoadAuthorizations { path: String },
    /// The runtime is up.
    Started(Runtime),
    /// The boot failed.
    Failed(RuntimeError),
}

/// A boot as a state machine: spawn lair, make sure the device seed exists
/// (importing the pending seed when there is none yet, else generating one),
/// read the device key, run the hc-auth flow if configured, build the
/// conductor on the same lair, then load the client authorizations.
#[derive(Debug)]
pub struct BootFlow {
    pub boot: RuntimeBootConfig,
    pub phase: BootPhase,
}

/// Which event a boot waits for in `phase`.
pub open spec fn boot_expects(phase: BootPhase, event: BootEvent) -> bool {
    match phase {
        BootPhase::AwaitingLair => event is LairSpawned,
        BootPhase::AwaitingSeedCheck => event is DeviceSeedChecked,
        BootPhase::AwaitingSeed => event is SeedReady,
        BootPhase::AwaitingDeviceKey => event is DeviceKeyRead,
        BootPhase::AwaitingAuthFlow { .. } => event is AuthFlowFinished,
        BootPhase::AwaitingConductor { .. } => event is ConductorBuilt,
        BootPhase::AwaitingAuthorizations { .. } => event is AuthorizationsLoaded,
        BootPhase::Finished => false,
    }
}

/// The action that follows once the device key is known: run the hc-auth flow
/// when configured, else build the conductor.
pub open spec fn after_device_key(boot: RuntimeBootConfig, action: BootAction) -> bool {
    match boot.hc_auth {
        Some(cfg) => (action matches BootAction::RunAuthFlow { config } && config == cfg),
        None => (action matches BootAction::BuildConductor { config }
            && builds_at_root(config, boot.data_root_path, boot.network)),
    }
}

/// Whether lair runs in process at the data root.
pub open spec fn lair_in_proc_at_root(config: ConductorConfig) -> bool {
    config.keystore matches KeystoreConfig::LairServerInProc { lair_root } && lair_root is None
}

/// Whether `config` builds a conductor at `root` on `network`, with lair in
/// process at the root.
pub open spec fn builds_at_root(config: ConductorConfig, root: String, network: NetworkConfig) -> bool {
    &&& config.data_root_path matches Some(p) && p@ == root@
    &&& config.network == network
    &&& lair_in_proc_at_root(config)
}

impl BootFlow {
    /// Whether the flow's state agrees with its phase.
    pub open spec fn well_formed(&self) -> bool {
        match self.phase {
            BootPhase::AwaitingAuthFlow { .. } => self.boot.hc_auth is Some,
            _ => true,
        }
    }

    /// Start a boot: the first action is to spawn lair at
    /// `<data_root>/lair-keystore-config.yaml`, where the conductor itself would
    /// put it.
    pub fn start(boot: RuntimeBootConfig) -> (r: (BootFlow, BootAction))
        ensures
            r.0.well_formed(),
            r.0.boot == boot,
            r.0.phase is AwaitingLair,
            r.1 matches BootAction::SpawnLair { keystore_config_path }
                && keystore_config_path@ == path_join(boot.data_root_path@, "lair-keystore-config.yaml"@),
    {
        let keystore_config_path = join_path(boot.data_root_path.as_str(), "lair-keystore-config.yaml");
        (BootFlow { boot, phase: BootPhase::AwaitingLair }, BootAction::SpawnLair { keystore_config_path })
    }

    /// Advance the boot with the host's report of the last action. An error
    /// reported by any step but the hc-auth flow fails the boot with that
    /// error; the hc-auth flow's outcome is folded in by [`boot_auth_outcome`].
    pub fn step(self, event: BootEvent) -> (r: (BootFlow, BootAction))
        requires
            self.well_formed(),
            boot_expects(self.phase, event),
            event matches BootEvent::AuthorizationsLoaded(Ok(Some(p))) ==> p.well_formed(),
        ensures
            r.0.well_formed(),
            r.0.boot == self.boot,
            match (self.phase, event) {
                (_, BootEvent::LairSpawned(Err(e))) => r.1 == BootAction::Failed(e) && r.0.phase is Finished,
                (_, BootEvent::LairSpawned(Ok(()))) => r.1 is CheckDeviceSeed && r.0.phase is AwaitingSeedCheck,
                (_, BootEvent::DeviceSeedChecked(has_seed)) => {
                    if !has_seed {
                        match self.boot.pending_import_seed {
                            Some(seed) => if seed@.len() == SEED_LEN {
                                &&& r.0.phase is AwaitingSeed
                                &&& r.1 matches BootAction::ImportDeviceSeed { seed: s } && s@ == seed@
                            } else {
                                &&& r.0.phase is Finished
                                &&& r.1 matches BootAction::Failed(RuntimeError::AgentSeed(m))
                                    && m@ == "seed must be exactly 32 bytes, got "@ + decimal(seed@.len())
                            },
                            None => r.0.phase is AwaitingSeed && r.1 is GenerateDeviceSeed,
                        }
                    } else {
                        &&& r.0.phase is AwaitingDeviceKey
                        &&& r.1 matches BootAction::ReadDeviceKey { pending_seed_ignored }
                            && pending_seed_ignored == self.boot.pending_import_seed is Some
                    }
                },
                (_, BootEvent::SeedReady(Err(e))) => r.1 == BootAction::Failed(e) && r.0.phase is Finished,
                (_, BootEvent::SeedReady(Ok(()))) => r.0.phase is AwaitingDeviceKey
                    && r.1 == BootAction::ReadDeviceKey { pending_seed_ignored: false },
                (_, BootEvent::DeviceKeyRead(Err(e))) => r.1 == BootAction::Failed(e) && r.0.phase is Finished,
                (_, BootEvent::DeviceKeyRead(Ok(key))) => {
                    &&& after_device_key(self.boot, r.1)
                    &&& match self.boot.hc_auth {
                        Some(_) => r.0.phase == BootPhase::AwaitingAuthFlow { device_agent_key: key },
                        None => r.0.phase matches BootPhase::AwaitingConductor { device_agent_key, auth }
                            && device_agent_key == key
                            && boot_auth_spec(auth, self.boot.network, None, None),
                    }
                },
                (BootPhase::AwaitingAuthFlow { device_agent_key }, BootEvent::AuthFlowFinished(flow)) => {
                    &&& r.0.phase matches BootPhase::AwaitingConductor { device_agent_key: k, auth }
                        && k == device_agent_key
                        && boot_auth_spec(auth, self.boot.network, self.boot.hc_auth, Some(flow))
                    &&& r.1 matches BootAction::BuildConductor { config }
                        && builds_at_root(config, self.boot.data_root_path, r.0.phase->AwaitingConductor_auth.network)
                    &&& flow matches Ok(res) ==> (res.auth_material matches Some(m) ==> (self.boot.hc_auth matches Some(cfg) ==> {
                        &&& cfg.auth_bootstrap ==> r.1->BuildConductor_config.network.base64_auth_material_bootstrap == Some(m)
                        &&& cfg.auth_relay ==> r.1->BuildConductor_config.network.base64_auth_material_relay == Some(m)
                    }))
                    &&& r.1->BuildConductor_config.network.bootstrap_url == self.boot.network.bootstrap_url
                    &&& r.1->BuildConductor_config.network.relay_url == self.boot.network.relay_url
                },
                (_, BootEvent::ConductorBuilt(Err(e))) => r.1 == BootAction::Failed(e) && r.0.phase is Finished,
                (BootPhase::AwaitingConductor { device_agent_key, auth }, BootEvent::ConductorBuilt(Ok(()))) => {
                    &&& r.0.phase == BootPhase::AwaitingAuthorizations { device_agent_key, auth }
                    &&& r.1 matches BootAction::LoadAuthorizations { path }
                        && path@ == path_join(self.boot.data_root_path@, PERSISTED_FILE_NAME@)
                },
                (_, BootEvent::AuthorizationsLoaded(Err(e))) => r.1 == BootAction::Failed(e) && r.0.phase is Finished,
                (BootPhase::AwaitingAuthorizations { device_agent_key, auth }, BootEvent::AuthorizationsLoaded(Ok(persisted))) => {
                    &&& r.0.phase is Finished
                    &&& r.1 matches BootAction::Started(rt)
                        && rt.app_auths@ == Map::<Seq<char>, AppAuth>::empty()
                        && rt.app_auths.well_formed()
                        && rt.authorized_app_clients.well_formed()
                        && rt.authorized_app_clients.persisted_path@ == path_join(self.boot.data_root_path@, PERSISTED_FILE_NAME@)
                        && (match persisted {
                            Some(p) => rt.authorized_app_clients.authorized_app_clients == p,
                            None => forall|c: Seq<char>| rt.authorized_app_clients.authorized_app_clients.app_ids(c) is None,
                        })
                        && rt.device_agent_key == device_agent_key
                        && rt.data_root_path == self.boot.data_root_path
                        && rt.hc_auth_config == self.boot.hc_auth
                        && rt.hc_auth_status == auth.status
                        && rt.hc_auth_agent_key == auth.agent_key
                        && rt.hc_auth_raw_ed25519_b64url == auth.raw_ed25519_b64url
                },
                _ => false,
            },
    {
        let boot = self.boot;
        match (self.phase, event) {
            (_, BootEvent::LairSpawned(Err(e))) =>
                (BootFlow { boot, phase: BootPhase::Finished }, BootAction::Failed(e)),
            (_, BootEvent::LairSpawned(Ok(()))) =>
                (BootFlow { boot, phase: BootPhase::AwaitingSeedCheck }, BootAction::CheckDeviceSeed),
            (_, BootEvent::DeviceSeedChecked(has_seed)) => {
                if !has_seed {
                    let action = match &boot.pending_import_seed {
                        Some(seed) => match check_seed(seed.as_slice()) {
                            Ok(()) => BootAction::ImportDeviceSeed { seed: crate::text::copy_bytes(seed) },
                            Err(e) => {
                                return (BootFlow { boot, phase: BootPhase::Finished }, BootAction::Failed(e));
                            },
                        },
                        None => BootAction::GenerateDeviceSeed,
                    };
                    (BootFlow { boot, phase: BootPhase::AwaitingSeed }, action)
                } else {
                    let ignored = boot.pending_import_seed.is_some();
                    (BootFlow { boot, phase: BootPhase::AwaitingDeviceKey }, BootAction::ReadDeviceKey { pending_seed_ignored: ignored })
                }
            },
            (_, BootEvent::SeedReady(Err(e))) =>
                (BootFlow { boot, phase: BootPhase::Finished }, BootAction::Failed(e)),
            (_, BootEvent::SeedReady(Ok(()))) =>
                (BootFlow { boot, phase: BootPhase::AwaitingDeviceKey }, BootAction::ReadDeviceKey { pending_seed_ignored: false }),
            (_, BootEvent::DeviceKeyRead(Err(e))) =>
                (BootFlow { boot, phase: BootPhase::Finished }, BootAction::Failed(e)),
            (_, BootEvent::DeviceKeyRead(Ok(key))) => {
                match &boot.hc_auth {
                    Some(cfg) => {
                        let config = cfg.clone_config();
                        (BootFlow { boot, phase: BootPhase::AwaitingAuthFlow { device_agent_key: key } },
                         BootAction::RunAuthFlow { config })
                    },
                    None => {
                        let network = boot.network.duplicate();
                        let auth = boot_auth_outcome(network, &None, None);
                        let config = conductor_config(boot.data_root_path.as_str(), boot.network.duplicate());
                        (BootFlow { boot, phase: BootPhase::AwaitingConductor { device_agent_key: key, auth } },
                         BootAction::BuildConductor { config })
                    },
                }
            },
            (BootPhase::AwaitingAuthFlow { device_agent_key }, BootEvent::AuthFlowFinished(flow)) => {
                let network = boot.network.duplicate();
                let auth = boot_auth_outcome(network, &boot.hc_auth, Some(flow));
                let config = conductor_config(boot.data_root_path.as_str(), auth.network.duplicate());
                (BootFlow { boot, phase: BootPhase::AwaitingConductor { device_agent_key, auth } },
                 BootAction::BuildConductor { config })
            },
            (_, BootEvent::ConductorBuilt(Err(e))) =>
                (BootFlow { boot, phase: BootPhase::Finished }, BootAction::Failed(e)),
            (BootPhase::AwaitingConductor { device_agent_key, auth }, BootEvent::ConductorBuilt(Ok(()))) => {
                let path = join_path(boot.data_root_path.as_str(), PERSISTED_FILE_NAME);
                (BootFlow { boot, phase: BootPhase::AwaitingAuthorizations { device_agent_key, auth } },
                 BootAction::LoadAuthorizations { path })
            },
            (_, BootEvent::AuthorizationsLoaded(Err(e))) =>
                (BootFlow { boot, phase: BootPhase::Finished }, BootAction::Failed(e)),
            (BootPhase::AwaitingAuthorizations { device_agent_key, auth }, BootEvent::AuthorizationsLoaded(Ok(persisted))) => {
                let authorized_app_clients = AuthorizedAppClientsManager::new(boot.data_root_path.as_str(), persisted);
                let rt = Runtime {
                    app_auths: StringMap::new(),
                    authorized_app_clients,
                    device_agent_key,
                    data_root_path: boot.data_root_path.clone(),
                    hc_auth_config: match &boot.hc_auth { Some(c) => Some(c.clone_config()), None => None },
                    hc_auth_status: auth.status,
                    hc_auth_agent_key: auth.agent_key,
                    hc_auth_raw_ed25519_b64url: auth.raw_ed25519_b64url,
                };
                (BootFlow { boot, phase: BootPhase::Finished }, BootAction::Started(rt))
            },
            _ => {
                proof { assert(false); }
                (BootFlow { boot, phase: BootPhase::Finished }, BootAction::CheckDeviceSeed)
            },
        }
    }
}

/// The conductor's answer to an admin request, as far as the runtime reads it.
#[derive(Debug)]
pub enum AdminResponse {
    AppInstalled(AppInfoFfi),
    AppUninstalled,
    AppEnabled(AppInfoFfi),
    AppDisabled,
    AppsListed(Vec<AppInfoFfi>),
    /// The network stats, as JSON text.
    NetworkStatsDumped(String),
    AgentPubKeyGenerated(AgentPubKey),
    AppAuthenticationTokenIssued(AppAuthenticationTokenIssuedFfi),
    AppInterfaceAttached { port: u16 },
    /// Any answer the runtime does not read.
    Other,
}

/// An admin answer together with its `Debug` text, which is what an answer
/// other than the expected one is reported with.
#[derive(Debug)]
pub struct AdminAnswer {
    pub response: AdminResponse,
    pub debug_text: String,
}

/// Whether `r` is the bad-response error for `answer`.
pub open spec fn bad_response<T>(r: RuntimeResult<T>, answer: AdminAnswer) -> bool {
    r matches Err(RuntimeError::AdminApiBadResponse(m)) && m@ == answer.debug_text@
}

impl AdminAnswer {
    /// The bad-response error for this answer.
    pub fn into_bad_response(self) -> (r: RuntimeError)
        ensures
            r matches RuntimeError::AdminApiBadResponse(m) && m@ == self.debug_text@,
    {
        RuntimeError::AdminApiBadResponse(self.debug_text)
    }

    /// The answer to an install: the installed app.
    pub fn app_installed(self) -> (r: RuntimeResult<AppInfoFfi>)
        ensures
            match self.response {
                AdminResponse::AppInstalled(v) => r == Ok::<AppInfoFfi, RuntimeError>(v),
                _ => bad_response(r, self),
            },
    {
        match self.response {
            AdminResponse::AppInstalled(v) => Ok(v),
            _ => Err(self.into_bad_response()),
        }
    }

    /// The answer to an uninstall.
    pub fn app_uninstalled(self) -> (r: RuntimeResult<()>)
        ensures
            match self.response {
                AdminResponse::AppUninstalled => r is Ok,
                _ => bad_response(r, self),
            },
    {
        match self.response {
            AdminResponse::AppUninstalled => Ok(()),
            _ => Err(self.into_bad_response()),
        }
    }

    /// The answer to an enable: the enabled app.
    pub fn app_enabled(self) -> (r: RuntimeResult<AppInfoFfi>)
        ensures
            match self.response {
                AdminResponse::AppEnabled(v) => r == Ok::<AppInfoFfi, RuntimeError>(v),
                _ => bad_response(r, self),
            },
    {
        match self.response {
            AdminResponse::AppEnabled(v) => Ok(v),
            _ => Err(self.into_bad_response()),
        }
    }

    /// The answer to a disable.
    pub fn app_disabled(self) -> (r: RuntimeResult<()>)
        ensures
            match self.response {
                AdminResponse::AppDisabled => r is Ok,
                _ => bad_response(r, self),
            },
    {
        match self.response {
            AdminResponse::AppDisabled => Ok(()),
            _ => Err(self.into_bad_response()),
        }
    }

    /// The answer to a listing: the installed apps.
    pub fn apps_listed(self) -> (r: RuntimeResult<Vec<AppInfoFfi>>)
        ensures
            match self.response {
                AdminResponse::AppsListed(v) => r == Ok::<Vec<AppInfoFfi>, RuntimeError>(v),
                _ => bad_response(r, self),
            },
    {
        match self.response {
            AdminResponse::AppsListed(v) => Ok(v),
            _ => Err(self.into_bad_response()),
        }
    }

    /// The answer to a stats dump: the stats as JSON text.
    pub fn network_stats_dumped(self) -> (r: RuntimeResult<String>)
        ensures
            match self.response {
                AdminResponse::NetworkStatsDumped(v) => r == Ok::<String, RuntimeError>(v),
                _ => bad_response(r, self),
            },
    {
        match self.response {
            AdminResponse::NetworkStatsDumped(v) => Ok(v),
            _ => Err(self.into_bad_response()),
        }
    }

    /// The answer to a key generation: the new key.
    pub fn agent_pub_key_generated(self) -> (r: RuntimeResult<AgentPubKey>)
        ensures
            match self.response {
                AdminResponse::AgentPubKeyGenerated(v) => r == Ok::<AgentPubKey, RuntimeError>(v),
                _ => bad_response(r, self),
            },
    {
        match self.response {
            AdminResponse::AgentPubKeyGenerated(v) => Ok(v),
            _ => Err(self.into_bad_response()),
        }
    }

    /// The answer to a token request: the issued token.
    pub fn app_authentication_token_issued(self) -> (r: RuntimeResult<AppAuthenticationTokenIssuedFfi>)
        ensures
            match self.response {
                AdminResponse::AppAuthenticationTokenIssued(v) => r == Ok::<AppAuthenticationTokenIssuedFfi, RuntimeError>(v),
                _ => bad_response(r, self),
            },
    {
        match self.response {
            AdminResponse::AppAuthenticationTokenIssued(v) => Ok(v),
            _ => Err(self.into_bad_response()),
        }
    }

    /// The answer to an interface attach: the interface's port.
    pub fn app_interface_attached(self) -> (r: RuntimeResult<u16>)
        ensures
            match self.response {
                AdminResponse::AppInterfaceAttached { port } => r == Ok::<u16, RuntimeError>(port),
                _ => bad_response(r, self),
            },
    {
        match self.response {
            AdminResponse::AppInterfaceAttached { port } => Ok(port),
            _ => Err(self.into_bad_response()),
        }
    }
}

/// Whether an app with the id `id` is among `apps`.
pub open spec fn has_app(apps: Seq<AppInfoFfi>, id: Seq<char>) -> bool {
    exists|i: int| 0 <= i < apps.len() && #[trigger] apps[i].installed_app_id@ == id
}

/// Whether an app with the id `installed_app_id` is among the listed apps.
pub fn is_app_installed(apps: &Vec<AppInfoFfi>, installed_app_id: &str) -> (r: bool)
    ensures
        r == has_app(apps@, installed_app_id@),
{
    let mut i: usize = 0;
    while i < apps.len()
        invariant
            0 <= i <= apps@.len(),
            forall|j: int| 0 <= j < i ==> #[trigger] apps@[j].installed_app_id@ != installed_app_id@,
        decreases apps@.len() - i,
    {
        if crate::text::str_equal(apps[i].installed_app_id.as_str(), installed_app_id) {
            return true;
        }
        i = i + 1;
    }
    false
}

/// The ids of the listed apps that are enabled (running): the apps to disable
/// before the conductor shuts down, in listing order.
pub open spec fn enabled_app_ids(apps: Seq<AppInfoFfi>) -> Seq<Seq<char>>
    decreases apps.len(),
{
    if apps.len() == 0 {
        Seq::empty()
    } else {
        let rest = enabled_app_ids(apps.drop_last());
        if apps.last().status is Running {
            rest.push(apps.last().installed_app_id@)
        } else {
            rest
        }
    }
}

/// The ids of the enabled apps among `apps`, which are disabled before the
/// conductor alone shuts down so their cells leave the network cleanly.
pub fn apps_to_disable(apps: &Vec<AppInfoFfi>) -> (r: Vec<String>)
    ensures
        crate::authorization::app_ids_view(r@) == enabled_app_ids(apps@),
{
    let mut r: Vec<String> = Vec::new();
    let mut i: usize = 0;
    while i < apps.len()
        invariant
            0 <= i <= apps@.len(),
            crate::authorization::app_ids_view(r@) == enabled_app_ids(apps@.subrange(0, i as int)),
        decreases apps@.len() - i,
    {
        let ghost before = r@;
        proof {
            assert(apps@.subrange(0, i as int + 1).drop_last() =~= apps@.subrange(0, i as int));
        }
        match apps[i].status {
            AppInfoStatusFfi::Running => {
                r.push(apps[i].installed_app_id.clone());
                proof {
                    assert(crate::authorization::app_ids_view(r@) =~= crate::authorization::app_ids_view(before).push(apps@[i as int].installed_app_id@));
                }
            },
            _ => {},
        }
        i = i + 1;
    }
    assert(apps@.subrange(0, apps@.len() as int) =~= apps@);
    r
}

/// The first provisioned cell in a list of cells, if any.
pub open spec fn first_provisioned(cells: Seq<CellInfoFfi>) -> Option<CellIdFfi>
    decreases cells.len(),
{
    if cells.len() == 0 {
        None
    } else {
        match cells[0] {
            CellInfoFfi::Provisioned(p) => Some(p.cell_id),
            _ => first_provisioned(cells.drop_first()),
        }
    }
}

/// The first provisioned cell across an app's roles, in role order.
pub open spec fn first_provisioned_in_roles(roles: Seq<(String, Vec<CellInfoFfi>)>) -> Option<CellIdFfi>
    decreases roles.len(),
{
    if roles.len() == 0 {
        None
    } else {
        match first_provisioned(roles[0].1@) {
            Some(c) => Some(c),
            None => first_provisioned_in_roles(roles.drop_first()),
        }
    }
}

/// The index of the first app with the id `id`, if any.
pub open spec fn first_app_index(apps: Seq<AppInfoFfi>, id: Seq<char>) -> Option<int>
    decreases apps.len(),
{
    if apps.len() == 0 {
        None
    } else if apps[0].installed_app_id@ == id {
        Some(0)
    } else {
        match first_app_index(apps.drop_first(), id) {
            Some(i) => Some(i + 1),
            None => None,
        }
    }
}

fn first_provisioned_cell(cells: &Vec<CellInfoFfi>) -> (r: Option<CellIdFfi>)
    ensures
        match first_provisioned(cells@) {
            Some(c) => r matches Some(x) && same_cell_id(x, c),
            None => r is None,
        },
{
    let mut i: usize = 0;
    assert(cells@.subrange(0, cells@.len() as int) =~= cells@);
    while i < cells.len()
        invariant
            0 <= i <= cells@.len(),
            first_provisioned(cells@) == first_provisioned(cells@.subrange(i as int, cells@.len() as int)),
        decreases cells@.len() - i,
    {
        let ghost rest = cells@.subrange(i as int, cells@.len() as int);
        proof {
            assert(rest.drop_first() =~= cells@.subrange(i as int + 1, cells@.len() as int));
            assert(rest[0] == cells@[i as int]);
        }
        match &cells[i] {
            CellInfoFfi::Provisioned(p) => {
                return Some(copy_cell_id(&p.cell_id));
            },
            _ => {},
        }
        i = i + 1;
    }
    assert(cells@.subrange(i as int, cells@.len() as int) =~= Seq::<CellInfoFfi>::empty());
    None
}

/// A copy of a cell id.
pub fn copy_cell_id(c: &CellIdFfi) -> (r: CellIdFfi)
    ensures
        r.dna_hash@ == c.dna_hash@,
        r.agent_pub_key@ == c.agent_pub_key@,
{
    CellIdFfi { dna_hash: crate::text::copy_bytes(&c.dna_hash), agent_pub_key: crate::text::copy_bytes(&c.agent_pub_key) }
}

/// Whether two cell ids hold the same hashes.
pub open spec fn same_cell_id(a: CellIdFfi, b: CellIdFfi) -> bool {
    a.dna_hash@ == b.dna_hash@ && a.agent_pub_key@ == b.agent_pub_key@
}

/// Find a provisioned cell of the app `installed_app_id` among the listed apps:
/// the first provisioned cell of its first role that has one. An app that is
/// not listed, or has no provisioned cell, is an invalid argument.
pub fn first_provisioned_cell_id(apps: &Vec<AppInfoFfi>, installed_app_id: &str) -> (r: RuntimeResult<CellIdFfi>)
    ensures
        match first_app_index(apps@, installed_app_id@) {
            None => r matches Err(RuntimeError::InvalidArguments(m)) && m@ == "app not installed: "@ + installed_app_id@,
            Some(i) => match first_provisioned_in_roles(apps@[i].cell_info@) {
                Some(c) => r matches Ok(cell) && same_cell_id(cell, c),
                None => r matches Err(RuntimeError::InvalidArguments(m))
                    && m@ == "app has no provisioned cell: "@ + installed_app_id@,
            },
        },
{
    let mut i: usize = 0;
    assert(apps@.subrange(0, apps@.len() as int) =~= apps@);
    while i < apps.len()
        invariant
            0 <= i <= apps@.len(),
            first_app_index(apps@, installed_app_id@) == match first_app_index(apps@.subrange(i as int, apps@.len() as int), installed_app_id@) {
                Some(k) => Some(k + i),
                None => None::<int>,
            },
        decreases apps@.len() - i,
    {
        let ghost rest = apps@.subrange(i as int, apps@.len() as int);
        proof {
            assert(rest.drop_first() =~= apps@.subrange(i as int + 1, apps@.len() as int));
            assert(rest[0] == apps@[i as int]);
        }
        if crate::text::str_equal(apps[i].installed_app_id.as_str(), installed_app_id) {
            assert(first_app_index(rest, installed_app_id@) == Some(0int));
            let roles = &apps[i].cell_info;
            let mut j: usize = 0;
            assert(roles@.subrange(0, roles@.len() as int) =~= roles@);
            while j < roles.len()
                invariant
                    0 <= j <= roles@.len(),
                    roles@ == apps@[i as int].cell_info@,
                    i < apps@.len(),
                    first_app_index(apps@, installed_app_id@) == Some(i as int),
                    first_provisioned_in_roles(roles@) == first_provisioned_in_roles(roles@.subrange(j as int, roles@.len() as int)),
                decreases roles@.len() - j,
            {
                let ghost rrest = roles@.subrange(j as int, roles@.len() as int);
                proof {
                    assert(rrest.drop_first() =~= roles@.subrange(j as int + 1, roles@.len() as int));
                    assert(rrest[0] == roles@[j as int]);
                }
                match first_provisioned_cell(&roles[j].1) {
                    Some(c) => { return Ok(c); },
                    None => {},
                }
                j = j + 1;
            }
            assert(roles@.subrange(j as int, roles@.len() as int) =~= Seq::<(String, Vec<CellInfoFfi>)>::empty());
            return Err(RuntimeError::InvalidArguments(concat("app has no provisioned cell: ", installed_app_id)));
        }
        i = i + 1;
    }
    assert(apps@.subrange(i as int, apps@.len() as int) =~= Seq::<AppInfoFfi>::empty());
    Err(RuntimeError::InvalidArguments(concat("app not installed: ", installed_app_id)))
}

/// The token request made for an app websocket: the app, no expiry, reusable.
#[derive(Debug)]
pub struct IssueAppAuthenticationTokenPayload {
    pub installed_app_id: String,
    pub expiry_seconds: u64,
    pub single_use: bool,
}

/// Which `Origin` values an app interface accepts.
#[derive(Debug, Clone)]
pub enum AllowedOrigins {
    Any,
    Origins(Vec<String>),
}

/// The interface attach made for an app websocket: any free port, any origin,
/// scoped to the app.
#[derive(Debug)]
pub struct AttachAppInterfaceRequest {
    pub port: Option<u16>,
    pub allowed_origins: AllowedOrigins,
    pub installed_app_id: Option<String>,
}

/// What getting an app websocket takes.
#[derive(Debug)]
pub enum AppWebsocketPlan {
    /// The app already has one.
    Cached(AppAuth),
    /// Issue a token and attach an interface, then record the result.
    Create { token: IssueAppAuthenticationTokenPayload, attach: AttachAppInterfaceRequest },
}

/// What installing an app only if it is missing did.
#[derive(Debug)]
pub enum AppInstallOutcome {
    /// The app was not installed, and now is.
    Installed(AppInfoFfi),
    /// The app was already installed; nothing was changed.
    AlreadyInstalled,
}

/// The setup steps for an app.
#[derive(Debug)]
pub struct SetupAppPlan {
    /// The app being set up.
    pub installed_app_id: String,
    /// Install it.
    pub install: bool,
    /// Enable it after the install.
    pub enable: bool,
}

/// Plan the setup of an app: an app that is already installed is neither
/// installed nor enabled (if it is disabled now it was disabled by hand, which
/// this must not override); a new app is installed, and enabled only if asked.
/// The payload must name the app.
pub fn setup_app_plan(installed_app_id: Option<String>, already_installed: bool, enable_after_install: bool) -> (r: RuntimeResult<SetupAppPlan>)
    ensures
        match installed_app_id {
            None => r matches Err(RuntimeError::InstalledAppIdNotSpecified),
            Some(id) => r matches Ok(p)
                && p.installed_app_id == id
                && p.install == !already_installed
                && p.enable == (!already_installed && enable_after_install),
        },
{
    match installed_app_id {
        None => Err(RuntimeError::InstalledAppIdNotSpecified),
        Some(id) => Ok(SetupAppPlan {
            installed_app_id: id,
            install: !already_installed,
            enable: !already_installed && enable_after_install,
        }),
    }
}

/// An app is only ever enabled by its setup right after the setup installed it.
pub proof fn setup_enables_only_fresh_installs(plan: SetupAppPlan, installed_app_id: Option<String>, already_installed: bool, enable_after_install: bool)
    requires
        installed_app_id is Some,
        plan.installed_app_id == installed_app_id->0,
        plan.install == !already_installed,
        plan.enable == (!already_installed && enable_after_install),
    ensures
        plan.enable ==> plan.install,
        already_installed ==> !plan.install && !plan.enable,
{
}

/// Once an app's websocket has been recorded, asking for it again finds that
/// same websocket, and the records of the other apps are untouched.
pub proof fn recorded_app_websocket_is_reused(before: Runtime, after: Runtime, installed_app_id: Seq<char>, app_auth: AppAuth, other: Seq<char>)
    requires
        after.app_auths@ == before.app_auths@.insert(installed_app_id, app_auth),
        other != installed_app_id,
    ensures
        after.app_auths@.dom().contains(installed_app_id),
        same_app_auth(after.app_auths@[installed_app_id], app_auth),
        after.app_auths@.dom().contains(other) == before.app_auths@.dom().contains(other),
        before.app_auths@.dom().contains(other) ==> after.app_auths@[other] == before.app_auths@[other],
{
}

impl Runtime {
    /// Whether the runtime's maps are well formed.
    pub open spec fn well_formed(&self) -> bool {
        &&& self.app_auths.well_formed()
        &&& self.authorized_app_clients.well_formed()
        &&& self.device_agent_key.well_formed()
    }

    /// The admin websocket port. The conductor runs in process with no admin
    /// websocket, so this is always `0`.
    pub fn admin_port(&self) -> (r: u16)
        ensures
            r == 0,
    {
        0
    }

    /// Current hc-auth status (set by the boot or restart auth flow).
    pub fn hc_auth_status(&self) -> (r: HcAuthStatus)
        ensures
            r == self.hc_auth_status,
    {
        match &self.hc_auth_status {
            HcAuthStatus::Authorized => HcAuthStatus::Authorized,
            HcAuthStatus::Pending => HcAuthStatus::Pending,
            HcAuthStatus::NotRegistered => HcAuthStatus::NotRegistered,
            HcAuthStatus::Blocked => HcAuthStatus::Blocked,
            HcAuthStatus::Failed(m) => HcAuthStatus::Failed(m.clone()),
        }
    }

    /// The hc-auth agent key, if the auth flow has run.
    pub fn hc_auth_agent_key(&self) -> (r: Option<AgentPubKey>)
        ensures
            match self.hc_auth_agent_key {
                Some(k) => r matches Some(c) && c.raw_39@ == k.raw_39@,
                None => r is None,
            },
    {
        match &self.hc_auth_agent_key {
            Some(k) => Some(AgentPubKey { raw_39: crate::text::copy_bytes(&k.raw_39) }),
            None => None,
        }
    }

    /// The hc-auth agent key as raw-Ed25519 URL-safe base64 (no padding).
    pub fn hc_auth_raw_ed25519_b64url(&self) -> (r: Option<String>)
        ensures
            r == self.hc_auth_raw_ed25519_b64url,
    {
        crate::url::copy_opt_string(&self.hc_auth_raw_ed25519_b64url)
    }

    /// Whether hc-auth (authenticated mode) is configured.
    pub fn is_hc_auth_configured(&self) -> (r: bool)
        ensures
            r == self.hc_auth_config is Some,
    {
        self.hc_auth_config.is_some()
    }

    /// The deterministic agent identity: the device seed's Ed25519 key.
    pub fn device_agent_key(&self) -> (r: AgentPubKey)
        ensures
            r.raw_39@ == self.device_agent_key.raw_39@,
    {
        AgentPubKey { raw_39: crate::text::copy_bytes(&self.device_agent_key.raw_39) }
    }

    /// How to get the app websocket of `installed_app_id`: the one already
    /// created for it, or a token request and an interface attach (any port, any
    /// origin, scoped to the app).
    pub fn app_websocket_plan(&self, installed_app_id: &str) -> (r: AppWebsocketPlan)
        requires
            self.well_formed(),
        ensures
            match r {
                AppWebsocketPlan::Cached(a) => self.app_auths@.dom().contains(installed_app_id@)
                    && same_app_auth(a, self.app_auths@[installed_app_id@]),
                AppWebsocketPlan::Create { token, attach } => !self.app_auths@.dom().contains(installed_app_id@)
                    && token.installed_app_id@ == installed_app_id@
                    && token.expiry_seconds == 0
                    && !token.single_use
                    && attach.port is None
                    && attach.allowed_origins is Any
                    && (attach.installed_app_id matches Some(a) && a@ == installed_app_id@),
            },
    {
        match self.app_auths.get(installed_app_id) {
            Some(a) => AppWebsocketPlan::Cached(copy_app_auth(a)),
            None => AppWebsocketPlan::Create {
                token: IssueAppAuthenticationTokenPayload {
                    installed_app_id: String::from_str(installed_app_id),
                    expiry_seconds: 0,
                    single_use: false,
                },
                attach: AttachAppInterfaceRequest {
                    port: None,
                    allowed_origins: AllowedOrigins::Any,
                    installed_app_id: Some(String::from_str(installed_app_id)),
                },
            },
        }
    }

    /// Record the app websocket created for `installed_app_id`.
    pub fn record_app_websocket(&mut self, installed_app_id: String, app_auth: AppAuth)
        requires
            old(self).well_formed(),
        ensures
            final(self).well_formed(),
            final(self).app_auths@ == old(self).app_auths@.insert(installed_app_id@, app_auth),
            final(self).device_agent_key == old(self).device_agent_key,
            final(self).hc_auth_config == old(self).hc_auth_config,
            final(self).data_root_path == old(self).data_root_path,
    {
        self.app_auths.insert(installed_app_id, app_auth);
    }

    /// Authorize a client to call the given app, in memory; the host then
    /// persists the record.
    pub fn authorize_app_client(&mut self, client_uid: ClientId, installed_app_id: String)
        requires
            old(self).well_formed(),
        ensures
            final(self).well_formed(),
            final(self).authorized_app_clients.authorized_app_clients.authorizes(client_uid.0@, installed_app_id@),
            forall|c: Seq<char>| c != client_uid.0@ ==> final(self).authorized_app_clients.authorized_app_clients.app_ids(c)
                == old(self).authorized_app_clients.authorized_app_clients.app_ids(c),
            final(self).authorized_app_clients.persisted_path == old(self).authorized_app_clients.persisted_path,
    {
        self.authorized_app_clients.authorize(client_uid, installed_app_id);
    }

    /// Whether a client may call the given app, after loading what the
    /// persisted record holds.
    pub fn is_app_client_authorized(&mut self, persisted: Option<AuthorizedAppClients>, client_uid: &ClientId, installed_app_id: &str) -> (r: bool)
        requires
            old(self).well_formed(),
            persisted matches Some(p) ==> p.well_formed(),
        ensures
            final(self).well_formed(),
            r == final(self).authorized_app_clients.authorized_app_clients.authorizes(client_uid.0@, installed_app_id@),
            match persisted {
                Some(p) => final(self).authorized_app_clients.authorized_app_clients == p,
                None => final(self).authorized_app_clients.authorized_app_clients == old(self).authorized_app_clients.authorized_app_clients,
            },
    {
        self.authorized_app_clients.is_authorized(persisted, client_uid, installed_app_id)
    }

    /// The hc-auth config for a restart; restarting needs hc-auth configured at
    /// boot.
    pub fn restart_config(&self) -> (r: RuntimeResult<HcAuthConfig>)
        ensures
            match self.hc_auth_config {
                Some(c) => r == Ok::<HcAuthConfig, RuntimeError>(c),
                None => r matches Err(RuntimeError::HcAuth(m)) && m@ == "hc-auth not configured"@,
            },
    {
        match &self.hc_auth_config {
            Some(c) => Ok(c.clone_config()),
            None => Err(RuntimeError::HcAuth(String::from_str("hc-auth not configured"))),
        }
    }
}

/// The runtime after an hc-auth restart of the runtime at `data_root_path`
/// with the device key `device_agent_key`.
pub fn runtime_after_restart(
    data_root_path: String,
    device_agent_key: AgentPubKey,
    config: HcAuthConfig,
    result: AuthFlowResult,
    persisted: Option<AuthorizedAppClients>,
) -> (r: Runtime)
    requires
        device_agent_key.well_formed(),
        persisted matches Some(p) ==> p.well_formed(),
    ensures
        r.well_formed(),
        r.app_auths@ == Map::<Seq<char>, AppAuth>::empty(),
        r.authorized_app_clients.persisted_path@ == path_join(data_root_path@, PERSISTED_FILE_NAME@),
        match persisted {
            Some(p) => r.authorized_app_clients.authorized_app_clients == p,
            None => forall|c: Seq<char>| r.authorized_app_clients.authorized_app_clients.app_ids(c) is None,
        },
        r.device_agent_key == device_agent_key,
        r.data_root_path == data_root_path,
        r.hc_auth_config == Some(config),
        r.hc_auth_status == result.status,
        r.hc_auth_agent_key == Some(result.agent_key),
        r.hc_auth_raw_ed25519_b64url == Some(result.raw_ed25519_b64url),
{
    Runtime {
        app_auths: StringMap::new(),
        authorized_app_clients: AuthorizedAppClientsManager::new(data_root_path.as_str(), persisted),
        device_agent_key,
        data_root_path,
        hc_auth_config: Some(config),
        hc_auth_status: result.status,
        hc_auth_agent_key: Some(result.agent_key),
        hc_auth_raw_ed25519_b64url: Some(result.raw_ed25519_b64url),
    }
}

/// Where an hc-auth restart stands.
#[derive(Debug)]
pub enum RestartPhase {
    AwaitingApps,
    AwaitingDisable,
    AwaitingShutdown,
    AwaitingAuthFlow,
    AwaitingConductor { result: AuthFlowResult },
    AwaitingAuthorizations { result: AuthFlowResult },
    Finished,
}

/// What the host reports back to a restart.
#[derive(Debug)]
pub enum RestartEvent {
    /// The installed apps, or why they could not be listed.
    AppsListed(RuntimeResult<Vec<AppInfoFfi>>),
    /// The enabled apps were disabled (a failure to disable one is only logged).
    AppsDisabled,
    /// The conductor was shut down, lair still running, or why it was not.
    ConductorShutDown(RuntimeResult<()>),
    /// The hc-auth flow's result.
    AuthFlowFinished(RuntimeResult<AuthFlowResult>),
    /// The conductor was built on the same lair, or why it was not.
    ConductorBuilt(RuntimeResult<()>),
    /// The persisted client authorizations, if any.
    AuthorizationsLoaded(RuntimeResult<Option<AuthorizedAppClients>>),
}

/// What a restart asks the host to do next.
#[derive(Debug)]
pub enum RestartAction {
    /// List the installed apps.
    ListApps,
    /// Disable these apps, logging any failure.
    DisableApps { app_ids: Vec<String> },
    /// Shut the conductor down, leaving lair running.
    ShutDownConductor,
    /// Run the hc-auth flow against the still-running lair.
    RunAuthFlow { config: HcAuthConfig },
    /// Build a conductor with this config on the same lair and passphrase.
    BuildConductor { config: ConductorConfig },
    /// Read the persisted client authorizations at this path.
    LoadAuthorizations { path: String },
    /// The restart is done: this is the new runtime.
    Restarted(Runtime),
    /// The restart failed with this error.
    Failed(RuntimeError),
}

/// Which event a restart waits for in `phase`.
pub open spec fn restart_expects(phase: RestartPhase, event: RestartEvent) -> bool {
    match phase {
        RestartPhase::AwaitingApps => event is AppsListed,
        RestartPhase::AwaitingDisable => event is AppsDisabled,
        RestartPhase::AwaitingShutdown => event is ConductorShutDown,
        RestartPhase::AwaitingAuthFlow => event is AuthFlowFinished,
        RestartPhase::AwaitingConductor { .. } => event is ConductorBuilt,
        RestartPhase::AwaitingAuthorizations { .. } => event is AuthorizationsLoaded,
        RestartPhase::Finished => false,
    }
}

/// An hc-auth restart that keeps lair running, as a state machine: disable the
/// enabled apps, shut the conductor down, re-run the hc-auth flow, inject the
/// fresh material into `network`, rebuild the conductor on the same lair, and
/// reload the client authorizations.
#[derive(Debug)]
pub struct RestartFlow {
    pub config: HcAuthConfig,
    pub data_root_path: String,
    pub device_agent_key: AgentPubKey,
    pub network: NetworkConfig,
    pub add_auth_material_to_bootstrap: bool,
    pub add_auth_material_to_relay: bool,
    pub phase: RestartPhase,
}

/// Whether two restarts share their parameters.
pub open spec fn same_restart(a: RestartFlow, b: RestartFlow) -> bool {
    &&& a.config == b.config
    &&& a.data_root_path == b.data_root_path
    &&& a.device_agent_key == b.device_agent_key
    &&& a.network == b.network
    &&& a.add_auth_material_to_bootstrap == b.add_auth_material_to_bootstrap
    &&& a.add_auth_material_to_relay == b.add_auth_material_to_relay
}

impl RestartFlow {
    /// Start a restart of `runtime` onto `network`: the first action is to list
    /// the apps. Restarting needs hc-auth configured at boot.
    pub fn start(runtime: &Runtime, network: NetworkConfig, add_auth_material_to_bootstrap: bool, add_auth_material_to_relay: bool) -> (r: RuntimeResult<(RestartFlow, RestartAction)>)
        requires
            runtime.well_formed(),
        ensures
            match runtime.hc_auth_config {
                None => r matches Err(RuntimeError::HcAuth(m)) && m@ == "hc-auth not configured"@,
                Some(c) => r matches Ok((flow, action))
                    && action is ListApps
                    && flow.phase is AwaitingApps
                    && flow.config == c
                    && flow.data_root_path == runtime.data_root_path
                    && flow.device_agent_key.raw_39@ == runtime.device_agent_key.raw_39@
                    && flow.device_agent_key.well_formed()
                    && flow.network == network
                    && flow.add_auth_material_to_bootstrap == add_auth_material_to_bootstrap
                    && flow.add_auth_material_to_relay == add_auth_material_to_relay,
            },
    {
        let config = runtime.restart_config()?;
        let flow = RestartFlow {
            config,
            data_root_path: runtime.data_root_path.clone(),
            device_agent_key: runtime.device_agent_key(),
            network,
            add_auth_material_to_bootstrap,
            add_auth_material_to_relay,
            phase: RestartPhase::AwaitingApps,
        };
        Ok((flow, RestartAction::ListApps))
    }

    /// Advance the restart with the host's report of the last action. Any
    /// error but a failure to disable an app ends the restart with that error.
    pub fn step(self, event: RestartEvent) -> (r: (RestartFlow, RestartAction))
        requires
            self.device_agent_key.well_formed(),
            restart_expects(self.phase, event),
            event matches RestartEvent::AuthorizationsLoaded(Ok(Some(p))) ==> p.well_formed(),
        ensures
            same_restart(r.0, self),
            r.0.device_agent_key.well_formed(),
            match (self.phase, event) {
                (_, RestartEvent::AppsListed(Err(e))) => r.1 == RestartAction::Failed(e) && r.0.phase is Finished,
                (_, RestartEvent::AppsListed(Ok(apps))) => r.0.phase is AwaitingDisable
                    && (r.1 matches RestartAction::DisableApps { app_ids }
                        && crate::authorization::app_ids_view(app_ids@) == enabled_app_ids(apps@)),
                (_, RestartEvent::AppsDisabled) => r.0.phase is AwaitingShutdown && r.1 is ShutDownConductor,
                (_, RestartEvent::ConductorShutDown(Err(e))) => r.1 == RestartAction::Failed(e) && r.0.phase is Finished,
                (_, RestartEvent::ConductorShutDown(Ok(()))) => r.0.phase is AwaitingAuthFlow
                    && r.1 == RestartAction::RunAuthFlow { config: self.config },
                (_, RestartEvent::AuthFlowFinished(Err(e))) => r.1 == RestartAction::Failed(e) && r.0.phase is Finished,
                (_, RestartEvent::AuthFlowFinished(Ok(result))) => {
                    &&& r.0.phase == RestartPhase::AwaitingConductor { result }
                    &&& r.1 matches RestartAction::BuildConductor { config }
                        && builds_at_root(config, self.data_root_path, with_auth_material(self.network,
                            result.auth_material, self.add_auth_material_to_bootstrap, self.add_auth_material_to_relay))
                },
                (_, RestartEvent::ConductorBuilt(Err(e))) => r.1 == RestartAction::Failed(e) && r.0.phase is Finished,
                (RestartPhase::AwaitingConductor { result }, RestartEvent::ConductorBuilt(Ok(()))) => {
                    &&& r.0.phase == RestartPhase::AwaitingAuthorizations { result }
                    &&& r.1 matches RestartAction::LoadAuthorizations { path }
                        && path@ == path_join(self.data_root_path@, PERSISTED_FILE_NAME@)
                },
                (_, RestartEvent::AuthorizationsLoaded(Err(e))) => r.1 == RestartAction::Failed(e) && r.0.phase is Finished,
                (RestartPhase::AwaitingAuthorizations { result }, RestartEvent::AuthorizationsLoaded(Ok(persisted))) => {
                    &&& r.0.phase is Finished
                    &&& r.1 matches RestartAction::Restarted(rt)
                        && rt.well_formed()
                        && rt.app_auths@ == Map::<Seq<char>, AppAuth>::empty()
                        && rt.authorized_app_clients.persisted_path@ == path_join(self.data_root_path@, PERSISTED_FILE_NAME@)
                        && (match persisted {
                            Some(p) => rt.authorized_app_clients.authorized_app_clients == p,
                            None => forall|c: Seq<char>| rt.authorized_app_clients.authorized_app_clients.app_ids(c) is None,
                        })
                        && rt.device_agent_key.raw_39@ == self.device_agent_key.raw_39@
                        && rt.data_root_path == self.data_root_path
                        && rt.hc_auth_config == Some(self.config)
                        && rt.hc_auth_status == result.status
                        && rt.hc_auth_agent_key == Some(result.agent_key)
                        && rt.hc_auth_raw_ed25519_b64url == Some(result.raw_ed25519_b64url)
                },
                _ => false,
            },
    {
        let phase = self.phase;
        match (phase, event) {
            (_, RestartEvent::AppsListed(Err(e))) =>
                (RestartFlow { phase: RestartPhase::Finished, ..self }, RestartAction::Failed(e)),
            (_, RestartEvent::AppsListed(Ok(apps))) => {
                let app_ids = apps_to_disable(&apps);
                (RestartFlow { phase: RestartPhase::AwaitingDisable, ..self }, RestartAction::DisableApps { app_ids })
            },
            (_, RestartEvent::AppsDisabled) =>
                (RestartFlow { phase: RestartPhase::AwaitingShutdown, ..self }, RestartAction::ShutDownConductor),
            (_, RestartEvent::ConductorShutDown(Err(e))) =>
                (RestartFlow { phase: RestartPhase::Finished, ..self }, RestartAction::Failed(e)),
            (_, RestartEvent::ConductorShutDown(Ok(()))) => {
                let config = self.config.clone_config();
                (RestartFlow { phase: RestartPhase::AwaitingAuthFlow, ..self }, RestartAction::RunAuthFlow { config })
            },
            (_, RestartEvent::AuthFlowFinished(Err(e))) =>
                (RestartFlow { phase: RestartPhase::Finished, ..self }, RestartAction::Failed(e)),
            (_, RestartEvent::AuthFlowFinished(Ok(result))) => {
                let network = restart_network(self.network.duplicate(), &result,
                    self.add_auth_material_to_bootstrap, self.add_auth_material_to_relay);
                let config = conductor_config(self.data_root_path.as_str(), network);
                (RestartFlow { phase: RestartPhase::AwaitingConductor { result }, ..self }, RestartAction::BuildConductor { config })
            },
            (_, RestartEvent::ConductorBuilt(Err(e))) =>
                (RestartFlow { phase: RestartPhase::Finished, ..self }, RestartAction::Failed(e)),
            (RestartPhase::AwaitingConductor { result }, RestartEvent::ConductorBuilt(Ok(()))) => {
                let path = join_path(self.data_root_path.as_str(), PERSISTED_FILE_NAME);
                (RestartFlow { phase: RestartPhase::AwaitingAuthorizations { result }, ..self }, RestartAction::LoadAuthorizations { path })
            },
            (_, RestartEvent::AuthorizationsLoaded(Err(e))) =>
                (RestartFlow { phase: RestartPhase::Finished, ..self }, RestartAction::Failed(e)),
            (RestartPhase::AwaitingAuthorizations { result }, RestartEvent::AuthorizationsLoaded(Ok(persisted))) => {
                let rt = runtime_after_restart(
                    self.data_root_path.clone(),
                    AgentPubKey { raw_39: crate::text::copy_bytes(&self.device_agent_key.raw_39) },
                    self.config.clone_config(),
                    result,
                    persisted,
                );
                (RestartFlow { phase: RestartPhase::Finished, ..self }, RestartAction::Restarted(rt))
            },
            _ => {
                proof { assert(false); }
                (RestartFlow { phase: RestartPhase::Finished, ..self }, RestartAction::ListApps)
            },
        }
    }
}

/// The network an hc-auth restart rebuilds the conductor with: the given
/// network, with the fresh material written to the slots asked for.
pub fn restart_network(network: NetworkConfig, result: &AuthFlowResult, add_auth_material_to_bootstrap: bool, add_auth_material_to_relay: bool) -> (r: NetworkConfig)
    ensures
        r == with_auth_material(network, result.auth_material, add_auth_material_to_bootstrap, add_auth_material_to_relay),
{
    let mut network = network;
    inject_auth_material(&mut network, &result.auth_material, add_auth_material_to_bootstrap, add_auth_material_to_relay);
    network
}

} // verus!
