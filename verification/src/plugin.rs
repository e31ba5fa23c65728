//! The Tauri plugin's decisions: whether the conductor may start, which app
//! each webview window is bound to, how a window is rebound, what a window's
//! injected environment says, and how a webview's zome-call request is checked.

use vstd::prelude::*;
use crate::error::{RuntimeError, runtime_error_message, concat};
use crate::hc_auth::HcAuthConfig;
use crate::network::NetworkConfig;
use crate::string_map::StringMap;
use crate::text::decimal;
use crate::types::CellIdFfi;

verus! {

broadcast use vstd::string::group_string_axioms;

/// Emitted on the app handle once the conductor is up.
pub const EVENT_READY: &'static str = "holochain://ready";
/// Emitted on the app handle once the lair keystore is unlocked and the device
/// key is available, before the conductor has finished coming up.
pub const EVENT_LAIR_READY: &'static str = "holochain://lair-ready";
/// Emitted on the app handle if the conductor fails to start, with the error.
pub const EVENT_SETUP_FAILED: &'static str = "holochain://setup-failed";
/// Emitted to a window with each msgpack-encoded signal of its app.
pub const EVENT_SIGNAL: &'static str = "holochain://signal";
/// Emitted to a window when it is rebound to another app, or unbound.
pub const EVENT_REBOUND: &'static str = "holochain://rebound";

/// A failure of the plugin.
#[derive(Debug)]
pub enum Error {
    /// No conductor boot has finished: none was started, or one is in flight.
    NotReady,
    /// The conductor was started and failed to come up, with the cause.
    SetupFailed(String),
    /// A start was asked for while the conductor is already running.
    AlreadyStarted,
    /// The runtime failed.
    Runtime(RuntimeError),
    /// Tauri failed, as it reported.
    Tauri(String),
    /// An `app_request` arrived from a window that is not bound to any app.
    WindowNotBound,
    /// A webview URL the plugin cannot derive an origin for.
    UnsupportedWebviewUrl(String),
    /// A value crossing the IPC boundary could not be decoded.
    Serialization(String),
    /// The app's data directory could not be found or created.
    AppPaths(String),
    /// The saved user network settings could not be read or written.
    UserNetworkConfig(String),
    /// A user network command ran in an app that manages no settings path.
    UserNetworkConfigPathNotManaged,
}

/// The text a plugin error is reported with.
pub open spec fn error_message(e: Error) -> Seq<char> {
    match e {
        Error::NotReady => "the holochain conductor is not ready yet"@,
        Error::SetupFailed(c) => "the holochain conductor failed to start: "@ + c@,
        Error::AlreadyStarted => "the holochain conductor is already started"@,
        Error::Runtime(r) => runtime_error_message(r),
        Error::Tauri(t) => t@,
        Error::WindowNotBound => "no holochain app is bound to this window"@,
        Error::UnsupportedWebviewUrl(u) => "unsupported webview url: "@ + u@,
        Error::Serialization(s) => "serialization error: "@ + s@,
        Error::AppPaths(s) => "app data directory error: "@ + s@,
        Error::UserNetworkConfig(s) => "user network settings error: "@ + s@,
        Error::UserNetworkConfigPathNotManaged => "no user network settings path is managed by the app"@,
    }
}

impl Error {
    /// The text this error is reported with (and serialized as).
    pub fn message(&self) -> (r: String)
        ensures
            r@ == error_message(*self),
    {
        match self {
            Error::NotReady => String::from_str("the holochain conductor is not ready yet"),
            Error::SetupFailed(c) => concat("the holochain conductor failed to start: ", c.as_str()),
            Error::AlreadyStarted => String::from_str("the holochain conductor is already started"),
            Error::Runtime(r) => r.message(),
            Error::Tauri(t) => t.clone(),
            Error::WindowNotBound => String::from_str("no holochain app is bound to this window"),
            Error::UnsupportedWebviewUrl(u) => concat("unsupported webview url: ", u.as_str()),
            Error::Serialization(s) => concat("serialization error: ", s.as_str()),
            Error::AppPaths(s) => concat("app data directory error: ", s.as_str()),
            Error::UserNetworkConfig(s) => concat("user network settings error: ", s.as_str()),
            Error::UserNetworkConfigPathNotManaged =>
                String::from_str("no user network settings path is managed by the app"),
        }
    }

    /// The error for a settings file that could not be read or written:
    /// `<path>: <cause>`.
    pub fn user_network_config(path: &str, cause: &str) -> (r: Error)
        ensures
            r matches Error::UserNetworkConfig(m) && m@ == path@ + ": "@ + cause@,
    {
        let mut m = String::from_str(path);
        m.append(": ");
        m.append(cause);
        Error::UserNetworkConfig(m)
    }
}

/// Configuration for the in-process conductor.
#[derive(Debug)]
pub struct HolochainPluginConfig {
    /// Directory where conductor + keystore data is stored.
    pub data_dir: String,
    /// Network config (bootstrap / relay / ...).
    pub network: NetworkConfig,
    /// If set, run the hc-auth flow at boot and inject the material into the
    /// network config (authenticated mode).
    pub hc_auth: Option<HcAuthConfig>,
    /// If set (32 bytes), import as the device seed before boot.
    pub pending_import_seed: Option<Vec<u8>>,
}

impl HolochainPluginConfig {
    /// A config in open mode with no pending seed.
    pub fn new(data_dir: String, network: NetworkConfig) -> (r: HolochainPluginConfig)
        ensures
            r.data_dir == data_dir,
            r.network == network,
            r.hc_auth is None,
            r.pending_import_seed is None,
    {
        HolochainPluginConfig { data_dir, network, hc_auth: None, pending_import_seed: None }
    }

    /// Enable authenticated mode: the hc-auth flow runs at boot.
    pub fn with_hc_auth(self, hc_auth: HcAuthConfig) -> (r: HolochainPluginConfig)
        ensures
            r.data_dir == self.data_dir,
            r.network == self.network,
            r.hc_auth == Some(hc_auth),
            r.pending_import_seed == self.pending_import_seed,
    {
        HolochainPluginConfig { hc_auth: Some(hc_auth), ..self }
    }

    /// Import `seed` (32 bytes) as the device seed before boot.
    pub fn with_pending_import_seed(self, seed: Vec<u8>) -> (r: HolochainPluginConfig)
        ensures
            r.data_dir == self.data_dir,
            r.network == self.network,
            r.hc_auth == self.hc_auth,
            r.pending_import_seed == Some(seed),
    {
        HolochainPluginConfig { pending_import_seed: Some(seed), ..self }
    }
}

/// Where the plugin's conductor stands.
#[derive(Debug)]
pub enum ConductorState {
    /// No boot has finished.
    NotStarted,
    /// The conductor is up.
    Running,
    /// The last boot failed, with this cause.
    Failed(String),
}

/// The plugin's lifecycle: the conductor's state, with starts serialized by
/// the host.
#[derive(Debug)]
pub struct PluginLifecycle {
    pub state: ConductorState,
}

impl PluginLifecycle {
    /// A plugin that has not booted.
    pub fn new() -> (r: PluginLifecycle)
        ensures
            r.state is NotStarted,
    {
        PluginLifecycle { state: ConductorState::NotStarted }
    }

    /// Whether the runtime may be used: yes once running; a failed boot reports
    /// its cause; otherwise not ready.
    pub fn try_runtime(&self) -> (r: Result<(), Error>)
        ensures
            match self.state {
                ConductorState::Running => r is Ok,
                ConductorState::Failed(c) => r matches Err(Error::SetupFailed(m)) && m@ == c@,
                ConductorState::NotStarted => r matches Err(Error::NotReady),
            },
    {
        match &self.state {
            ConductorState::Running => Ok(()),
            ConductorState::Failed(c) => Err(Error::SetupFailed(c.clone())),
            ConductorState::NotStarted => Err(Error::NotReady),
        }
    }

    /// Whether a start may go ahead: not while the conductor is running.
    pub fn check_can_start(&self) -> (r: Result<(), Error>)
        ensures
            self.state is Running ==> r matches Err(Error::AlreadyStarted),
            !(self.state is Running) ==> r is Ok,
    {
        match &self.state {
            ConductorState::Running => Err(Error::AlreadyStarted),
            _ => Ok(()),
        }
    }

    /// Record how a start went: running on success; on failure the cause is
    /// kept for [`Self::try_runtime`] and the plugin can be started again.
    pub fn finish_start(&mut self, result: &Result<(), Error>)
        ensures
            result is Ok ==> final(self).state is Running,
            *result matches Err(e) ==> (final(self).state matches ConductorState::Failed(c) && c@ == error_message(e)),
    {
        match result {
            Ok(()) => { self.state = ConductorState::Running; },
            Err(e) => { self.state = ConductorState::Failed(e.message()); },
        }
    }
}

/// Payload of [`EVENT_REBOUND`]: a per-plugin counter, so a stale
/// (out-of-order) rebound can be dropped, and the new binding.
#[derive(Debug)]
pub struct ReboundEvent {
    pub seq: u64,
    pub app_id: Option<String>,
}

/// Which app each webview window is bound to, and the rebind counter.
#[derive(Debug)]
pub struct WindowBindings {
    /// Window label to app id.
    pub window_apps: StringMap<String>,
    /// The `seq` of the last rebound.
    pub rebind_seq: u64,
}

/// The bindings after `label` is rebound to `app_id` (`None` unbinds it).
pub open spec fn rebound(bindings: Map<Seq<char>, String>, label: Seq<char>, app_id: Option<String>) -> Map<Seq<char>, String> {
    match app_id {
        Some(a) => bindings.insert(label, a),
        None => bindings.remove(label),
    }
}

impl WindowBindings {
    /// Whether the map is well formed.
    pub open spec fn well_formed(&self) -> bool {
        self.window_apps.well_formed()
    }

    /// No windows bound, no rebounds yet.
    pub fn new() -> (r: WindowBindings)
        ensures
            r.well_formed(),
            r.window_apps@ == Map::<Seq<char>, String>::empty(),
            r.rebind_seq == 0,
    {
        WindowBindings { window_apps: StringMap::new(), rebind_seq: 0 }
    }

    /// Bind a window to an app, so its app requests are scoped to that app.
    pub fn bind_window(&mut self, label: String, app_id: String)
        requires
            old(self).well_formed(),
        ensures
            final(self).well_formed(),
            final(self).window_apps@ == old(self).window_apps@.insert(label@, app_id),
            final(self).rebind_seq == old(self).rebind_seq,
    {
        self.window_apps.insert(label, app_id);
    }

    /// The app a window is bound to, or `None` if it is unbound.
    pub fn bound_app(&self, label: &str) -> (r: Option<String>)
        requires
            self.well_formed(),
        ensures
            match r {
                Some(a) => self.window_apps@.dom().contains(label@) && self.window_apps@[label@] == a,
                None => !self.window_apps@.dom().contains(label@),
            },
    {
        match self.window_apps.get(label) {
            Some(a) => Some(a.clone()),
            None => None,
        }
    }

    /// The app a window's request is for; a window bound to none may not make
    /// app requests.
    pub fn app_id_for_window(&self, label: &str) -> (r: Result<String, Error>)
        requires
            self.well_formed(),
        ensures
            match r {
                Ok(a) => self.window_apps@.dom().contains(label@) && self.window_apps@[label@] == a,
                Err(e) => e is WindowNotBound && !self.window_apps@.dom().contains(label@),
            },
    {
        match self.bound_app(label) {
            Some(a) => Ok(a),
            None => Err(Error::WindowNotBound),
        }
    }

    /// Drop a window's binding (when it is unbound or destroyed).
    pub fn drop_window(&mut self, label: &str)
        requires
            old(self).well_formed(),
        ensures
            final(self).well_formed(),
            final(self).window_apps@ == old(self).window_apps@.remove(label@),
            final(self).rebind_seq == old(self).rebind_seq,
    {
        let _ = self.window_apps.remove(label);
    }

    /// Stamp a rebind: the counter advances by one (wrapping) and the new value
    /// is the rebound's `seq`.
    pub fn next_rebind_seq(&mut self) -> (r: u64)
        ensures
            r == old(self).rebind_seq.wrapping_add(1),
            final(self).rebind_seq == r,
            final(self).window_apps == old(self).window_apps,
    {
        self.rebind_seq = self.rebind_seq.wrapping_add(1);
        self.rebind_seq
    }

    /// Finish a rebind of `label` stamped `seq`. Rebinding to an app needs its
    /// signal forwarder, which the host spawns first: if that failed the window
    /// keeps its binding and the error is returned; otherwise the window is
    /// bound to the app. Unbinding drops the binding. The event to emit to the
    /// window is returned.
    pub fn complete_rebind(&mut self, label: String, app_id: Option<String>, seq: u64, forwarder: Result<(), Error>) -> (r: Result<ReboundEvent, Error>)
        requires
            old(self).well_formed(),
        ensures
            final(self).well_formed(),
            final(self).rebind_seq == old(self).rebind_seq,
            match (app_id, forwarder) {
                (Some(_), Err(e)) => r == Err::<ReboundEvent, Error>(e) && final(self).window_apps@ == old(self).window_apps@,
                _ => final(self).window_apps@ == rebound(old(self).window_apps@, label@, app_id)
                    && (r matches Ok(ev) && ev.seq == seq && ev.app_id == app_id),
            },
    {
        match app_id {
            Some(app) => match forwarder {
                Err(e) => Err(e),
                Ok(()) => {
                    let event_app = app.clone();
                    self.window_apps.insert(label, app);
                    Ok(ReboundEvent { seq, app_id: Some(event_app) })
                },
            },
            None => {
                self.window_apps.remove(label.as_str());
                Ok(ReboundEvent { seq, app_id: None })
            },
        }
    }
}

/// Rebinding a window to an app routes it to that app, unbinding it leaves it
/// routed nowhere, and every other window keeps its route.
pub proof fn rebind_routes_only_that_window(bindings: Map<Seq<char>, String>, label: Seq<char>, app_id: Option<String>, other: Seq<char>)
    requires
        other != label,
    ensures
        app_id matches Some(a) ==> rebound(bindings, label, app_id).dom().contains(label)
            && rebound(bindings, label, app_id)[label] == a,
        app_id is None ==> !rebound(bindings, label, app_id).dom().contains(label),
        rebound(bindings, label, app_id).dom().contains(other) == bindings.dom().contains(other),
        bindings.dom().contains(other) ==> rebound(bindings, label, app_id)[other] == bindings[other],
{
}

/// Consecutive rebound stamps differ, and increase until the counter wraps.
pub proof fn rebind_seq_advances(seq: u64)
    ensures
        seq < u64::MAX ==> seq.wrapping_add(1) == seq + 1,
        seq.wrapping_add(1) != seq,
{
}

/// Unsigned zome-call params as the webview's zome-call signer sends them: the
/// cell id split into its two hashes.
#[derive(Debug)]
pub struct SignZomeCallRequest {
    pub provenance: Vec<u8>,
    pub cell_id_dna_hash: Vec<u8>,
    pub cell_id_agent_pub_key: Vec<u8>,
    pub zome_name: String,
    pub fn_name: String,
    pub cap_secret: Option<Vec<u8>>,
    pub payload: Vec<u8>,
    pub nonce: Vec<u8>,
    pub expires_at: i64,
}

/// Zome-call params with the fixed-width fields checked: a 32-byte nonce and,
/// if given, a 64-byte cap secret. The hashes are checked when they are turned
/// into the conductor's hash types.
#[derive(Debug)]
pub struct ZomeCallParams {
    pub provenance: Vec<u8>,
    pub cell_id: CellIdFfi,
    pub zome_name: String,
    pub fn_name: String,
    pub cap_secret: Option<Vec<u8>>,
    pub payload: Vec<u8>,
    pub nonce: Vec<u8>,
    pub expires_at: i64,
}

/// Length of a zome-call nonce.
pub const NONCE_LEN: usize = 32;

/// Length of a capability secret.
pub const CAP_SECRET_LEN: usize = 64;

/// Build zome-call params from the flat wire shape. Every field arrives from
/// the webview, so a wrong-sized nonce or cap secret is a serialization error
/// rather than a panic; the nonce is checked first.
pub fn zome_call_params(request: SignZomeCallRequest) -> (r: Result<ZomeCallParams, Error>)
    ensures
        request.nonce@.len() != NONCE_LEN ==> (r matches Err(Error::Serialization(m)) && m@ == "nonce must be 32 bytes"@),
        request.nonce@.len() == NONCE_LEN && (request.cap_secret matches Some(s) && s@.len() != CAP_SECRET_LEN)
            ==> (r matches Err(Error::Serialization(m)) && m@ == "cap secret must be 64 bytes"@),
        request.nonce@.len() == NONCE_LEN && !(request.cap_secret matches Some(s) && s@.len() != CAP_SECRET_LEN)
            ==> (r matches Ok(p)
                && p.provenance == request.provenance
                && p.cell_id.dna_hash == request.cell_id_dna_hash
                && p.cell_id.agent_pub_key == request.cell_id_agent_pub_key
                && p.zome_name == request.zome_name
                && p.fn_name == request.fn_name
                && p.cap_secret == request.cap_secret
                && p.payload == request.payload
                && p.nonce == request.nonce
                && p.expires_at == request.expires_at),
{
    if request.nonce.len() != NONCE_LEN {
        return Err(Error::Serialization(String::from_str("nonce must be 32 bytes")));
    }
    match &request.cap_secret {
        Some(s) => {
            if s.len() != CAP_SECRET_LEN {
                return Err(Error::Serialization(String::from_str("cap secret must be 64 bytes")));
            }
        },
        None => {},
    }
    Ok(ZomeCallParams {
        provenance: request.provenance,
        cell_id: CellIdFfi { dna_hash: request.cell_id_dna_hash, agent_pub_key: request.cell_id_agent_pub_key },
        zome_name: request.zome_name,
        fn_name: request.fn_name,
        cap_secret: request.cap_secret,
        payload: request.payload,
        nonce: request.nonce,
        expires_at: request.expires_at,
    })
}

/// Work waiting to run exactly once, whichever of two triggers (the ready
/// event, or finding the conductor already up) comes first.
#[derive(Debug)]
pub struct PendingOnce<T> {
    pub pending: Option<T>,
}

impl<T> PendingOnce<T> {
    /// Hold `work` until it is taken.
    pub fn new(work: T) -> (r: PendingOnce<T>)
        ensures
            r.pending == Some(work),
    {
        PendingOnce { pending: Some(work) }
    }

    /// Take the work if the conductor is `ready` and nobody has taken it yet;
    /// while it is not ready the work stays queued.
    pub fn take_when_ready(&mut self, ready: bool) -> (r: Option<T>)
        ensures
            take_step(old(self).pending, ready, r, final(self).pending),
    {
        if ready {
            self.pending.take()
        } else {
            None
        }
    }
}

/// One attempt to take queued work: when the conductor is ready the attempt
/// gets what is queued and leaves nothing; otherwise it gets nothing and
/// leaves the queue as it was.
pub open spec fn take_step<T>(before: Option<T>, ready: bool, out: Option<T>, after: Option<T>) -> bool {
    if ready {
        out == before && after is None
    } else {
        out is None && after == before
    }
}

/// Attempt `i` of a series of attempts to take queued work.
pub open spec fn take_step_at<T>(queue: Seq<Option<T>>, ready: Seq<bool>, outs: Seq<Option<T>>, i: int) -> bool {
    take_step(queue[i], ready[i], outs[i], queue[i + 1])
}

/// Whether none of the first `n` attempts was made while ready.
pub open spec fn none_ready_before(ready: Seq<bool>, n: int) -> bool {
    forall|j: int| 0 <= j < n ==> !#[trigger] ready[j]
}

/// Before attempt `n` the work is still queued exactly when no earlier attempt
/// was made while ready.
proof fn lemma_queued_until_ready<T>(work: T, queue: Seq<Option<T>>, ready: Seq<bool>, outs: Seq<Option<T>>, n: int)
    requires
        queue.len() == ready.len() + 1,
        outs.len() == ready.len(),
        queue[0] == Some(work),
        forall|i: int| 0 <= i < ready.len() ==> #[trigger] take_step_at(queue, ready, outs, i),
        0 <= n <= ready.len(),
    ensures
        queue[n] is Some <==> none_ready_before(ready, n),
        queue[n] is Some ==> queue[n] == Some(work),
    decreases n,
{
    if n > 0 {
        lemma_queued_until_ready(work, queue, ready, outs, n - 1);
        assert(take_step_at(queue, ready, outs, n - 1));
        if none_ready_before(ready, n) {
            assert(!ready[n - 1]);
            assert(none_ready_before(ready, n - 1));
        }
        if !ready[n - 1] && none_ready_before(ready, n - 1) {
            assert(none_ready_before(ready, n));
        }
    }
}

/// Work queued with [`PendingOnce`] runs once and only once the conductor is
/// ready: over any series of attempts, an attempt gets the work only when it is
/// made while ready, at most one attempt gets it, and the first attempt made
/// while ready does get it. With no ready attempt the work never runs.
pub proof fn queued_work_runs_once_when_ready<T>(work: T, queue: Seq<Option<T>>, ready: Seq<bool>, outs: Seq<Option<T>>)
    requires
        queue.len() == ready.len() + 1,
        outs.len() == ready.len(),
        queue[0] == Some(work),
        forall|i: int| 0 <= i < ready.len() ==> #[trigger] take_step_at(queue, ready, outs, i),
    ensures
        forall|i: int| 0 <= i < outs.len() && outs[i] is Some ==> ready[i] && outs[i] == Some(work),
        forall|i: int, j: int| 0 <= i < outs.len() && 0 <= j < outs.len() && i != j && outs[i] is Some
            ==> outs[j] is None,
        forall|k: int| 0 <= k < ready.len() && ready[k] && none_ready_before(ready, k)
            ==> outs[k] == Some(work),
{
    assert forall|i: int| 0 <= i < outs.len() implies
        (outs[i] is Some <==> ready[i] && none_ready_before(ready, i))
        && (outs[i] is Some ==> outs[i] == Some(work)) by {
        lemma_queued_until_ready(work, queue, ready, outs, i);
        assert(take_step_at(queue, ready, outs, i));
    }
    assert forall|i: int, j: int| 0 <= i < outs.len() && 0 <= j < outs.len() && i != j && outs[i] is Some
        implies outs[j] is None by {
        if outs[j] is Some {
            assert(ready[i] && none_ready_before(ready, i));
            assert(ready[j] && none_ready_before(ready, j));
            if i < j {
                assert(!ready[i]);
            } else {
                assert(!ready[j]);
            }
        }
    }
}

/// Whether each rebind stamp of a series follows the one before it.
pub open spec fn stamp_follows(stamps: Seq<u64>, i: int) -> bool {
    stamps[i + 1] == stamps[i].wrapping_add(1)
}

/// The stamps a plugin gives its rebinds keep increasing: from a fresh plugin
/// (counter 0), each rebind taking the counter's next value, the `k`-th rebind
/// is stamped `k`, so every stamp is greater than every earlier one for as long
/// as fewer than `u64::MAX` rebinds have been made.
pub proof fn rebind_stamps_increase(stamps: Seq<u64>)
    requires
        stamps.len() <= u64::MAX,
        stamps.len() > 0 ==> stamps[0] == 0u64.wrapping_add(1),
        forall|i: int| 0 <= i < stamps.len() - 1 ==> #[trigger] stamp_follows(stamps, i),
    ensures
        forall|i: int| 0 <= i < stamps.len() ==> stamps[i] == i + 1,
        forall|i: int, j: int| 0 <= i < j < stamps.len() ==> stamps[i] < stamps[j],
    decreases stamps.len(),
{
    if stamps.len() > 1 {
        let prefix = stamps.drop_last();
        assert forall|i: int| 0 <= i < prefix.len() - 1 implies #[trigger] stamp_follows(prefix, i) by {
            assert(stamp_follows(stamps, i));
        }
        rebind_stamps_increase(prefix);
        let n = stamps.len() - 1;
        assert(stamp_follows(stamps, n - 1));
        assert(stamps[n - 1] == prefix[n - 1]);
        assert(stamps[n - 1] == n);
        assert(forall|i: int| 0 <= i < n ==> stamps[i] == prefix[i]);
    }
}

/// The bytes of `bytes` as Rust's `Debug` writes a byte slice: `[1, 2, 3]`.
pub open spec fn bytes_debug(bytes: Seq<u8>) -> Seq<char> {
    "["@ + bytes_debug_items(bytes) + "]"@
}

/// The comma-separated decimal items of [`bytes_debug`].
pub open spec fn bytes_debug_items(bytes: Seq<u8>) -> Seq<char>
    decreases bytes.len(),
{
    if bytes.len() == 0 {
        Seq::empty()
    } else if bytes.len() == 1 {
        decimal(bytes[0] as nat)
    } else {
        bytes_debug_items(bytes.drop_last()) + ", "@ + decimal(bytes.last() as nat)
    }
}

/// Render bytes as Rust's `Debug` writes a byte slice.
pub fn bytes_debug_string(bytes: &Vec<u8>) -> (r: String)
    ensures
        r@ == bytes_debug(bytes@),
{
    let mut s = String::from_str("[");
    let mut i: usize = 0;
    while i < bytes.len()
        invariant
            0 <= i <= bytes@.len(),
            s@ == "["@ + bytes_debug_items(bytes@.subrange(0, i as int)),
        decreases bytes@.len() - i,
    {
        let ghost before = s@;
        proof {
            assert(bytes@.subrange(0, i as int + 1).drop_last() =~= bytes@.subrange(0, i as int));
            assert(bytes@.subrange(0, i as int + 1).last() == bytes@[i as int]);
        }
        if i > 0 {
            s.append(", ");
        }
        let d = crate::text::decimal_string(bytes[i] as u64);
        s.append(d.as_str());
        proof {
            if i == 0 {
                assert(bytes@.subrange(0, 0) =~= Seq::<u8>::empty());
                assert(bytes_debug_items(bytes@.subrange(0, 0)) =~= Seq::<char>::empty());
                assert(s@ =~= "["@ + bytes_debug_items(bytes@.subrange(0, 1)));
            } else {
                assert(s@ =~= "["@ + bytes_debug_items(bytes@.subrange(0, i as int + 1)));
            }
        }
        i = i + 1;
    }
    assert(bytes@.subrange(0, bytes@.len() as int) =~= bytes@);
    s.append("]");
    s
}

/// `s` as Rust's `Debug` writes a string: quoted and escaped.
pub uninterp spec fn string_debug(s: Seq<char>) -> Seq<char>;

/// Calls `format!("{:?}", s)`. Claims that the text is the named `Debug`
/// rendering of the string.
#[verifier::external_body]
fn debug_quoted(s: &str) -> (r: String)
    ensures
        r@ == string_debug(s@),
{
    format!("{:?}", s)
}

/// The script injected into a directly wired window: the app it is bound to
/// (empty for an app-less window) and the plugin name.
pub fn direct_env_script(app_id: &Option<String>, plugin_name: &str) -> (r: String)
    ensures
        r@ == "window.injectHolochainTauriEnv("@
            + string_debug(match *app_id { Some(a) => a@, None => Seq::<char>::empty() })
            + ", "@ + string_debug(plugin_name@) + ");"@,
{
    let injected = match app_id {
        Some(a) => a.clone(),
        None => String::new(),
    };
    let mut s = String::from_str("window.injectHolochainTauriEnv(");
    let q = debug_quoted(injected.as_str());
    s.append(q.as_str());
    s.append(", ");
    let p = debug_quoted(plugin_name);
    s.append(p.as_str());
    s.append(");");
    s
}

/// The script injected into a window wired through the legacy app websocket:
/// the app, the interface's port and the token.
pub fn legacy_env_script(app_id: &str, port: u16, token: &Vec<u8>) -> (r: String)
    ensures
        r@ == "window.injectHolochainClientEnv(\""@ + app_id@ + "\", "@ + decimal(port as nat) + ", "@
            + bytes_debug(token@) + ");"@,
{
    let mut s = String::from_str("window.injectHolochainClientEnv(\"");
    s.append(app_id);
    s.append("\", ");
    let p = crate::text::decimal_string(port as u64);
    s.append(p.as_str());
    s.append(", ");
    let t = bytes_debug_string(token);
    s.append(t.as_str());
    s.append(");");
    s
}

/// How a window is wired to the conductor.
#[derive(Debug)]
pub enum WindowWiring {
    /// Through an app websocket for this app, and the legacy client env.
    LegacyWebsocket { app_id: String },
    /// Through Tauri IPC: the window is bound to `bind` when there is an app,
    /// and `env_script` is injected.
    Direct { bind: Option<String>, env_script: String },
}

/// Decide how a window is wired: the legacy app websocket needs an app, and
/// fails with [`Error::WindowNotBound`] without one; direct IPC binds the
/// window to the app if there is one (an app-less window can be bound later)
/// and injects the env naming the app and the plugin.
pub fn window_wiring(app_id: Option<String>, use_app_websocket: bool, plugin_name: &str) -> (r: Result<WindowWiring, Error>)
    ensures
        use_app_websocket ==> match app_id {
            Some(a) => (r matches Ok(WindowWiring::LegacyWebsocket { app_id: w }) && w == a),
            None => r matches Err(Error::WindowNotBound),
        },
        !use_app_websocket ==> (r matches Ok(WindowWiring::Direct { bind, env_script })
            && bind == app_id
            && env_script@ == "window.injectHolochainTauriEnv("@
                + string_debug(match app_id { Some(a) => a@, None => Seq::<char>::empty() })
                + ", "@ + string_debug(plugin_name@) + ");"@),
{
    if use_app_websocket {
        match app_id {
            Some(a) => Ok(WindowWiring::LegacyWebsocket { app_id: a }),
            None => Err(Error::WindowNotBound),
        }
    } else {
        let env_script = direct_env_script(&app_id, plugin_name);
        Ok(WindowWiring::Direct { bind: app_id, env_script })
    }
}

} // verus!
