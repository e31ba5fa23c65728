//! Plain-data records that cross the FFI and IPC boundaries: the shapes of the
//! conductor's app, cell and zome-call values, held as bytes, strings and
//! integers.
//!
//! A map keyed by role name is held as a `Vec` of `(role, cells)` pairs, in the
//! order the conductor reported them.

use vstd::prelude::*;

verus! {

/// A duration split into whole seconds and the sub-second nanoseconds.
#[derive(Clone, Copy, Debug)]
pub struct DurationFfi {
    pub secs: u64,
    pub nanos: u32,
}

impl DurationFfi {
    /// Split a duration given as whole seconds and sub-second nanoseconds.
    pub fn new(secs: u64, nanos: u32) -> (r: DurationFfi)
        ensures
            r.secs == secs,
            r.nanos == nanos,
    {
        DurationFfi { secs, nanos }
    }

    /// The nanosecond count this record is turned back into a duration with.
    ///
    /// The seconds are scaled by 1000, not by 10^9: a record of one second and
    /// no nanoseconds becomes a duration of one microsecond. The scaled sum
    /// must fit in a `u64`.
    pub fn to_nanos(&self) -> (r: u64)
        requires
            self.secs * 1000 + self.nanos <= u64::MAX,
        ensures
            r == self.secs * 1000 + self.nanos,
    {
        self.secs * 1000 + self.nanos as u64
    }
}

/// The modifiers that make a DNA's hash unique.
#[derive(Clone, Debug)]
pub struct DnaModifiersFfi {
    pub network_seed: String,
    pub properties: Vec<u8>,
    pub origin_time: i64,
    pub quantum_time: DurationFfi,
}

/// Modifiers to apply on install, each left as the bundle's when `None`.
#[derive(Clone, Debug)]
pub struct DnaModifiersOptFfi {
    pub network_seed: Option<String>,
    pub properties: Option<Vec<u8>>,
    pub origin_time: Option<i64>,
    pub quantum_time: Option<DurationFfi>,
}

/// A cell's id: the raw 39-byte DNA hash and agent key.
#[derive(Clone, Debug)]
pub struct CellIdFfi {
    pub dna_hash: Vec<u8>,
    pub agent_pub_key: Vec<u8>,
}

/// A cell created at install time for one of the app's roles.
#[derive(Clone, Debug)]
pub struct ProvisionedCellFfi {
    pub cell_id: CellIdFfi,
    pub dna_modifiers: DnaModifiersFfi,
    pub name: String,
}

/// A clone of a provisioned cell.
#[derive(Clone, Debug)]
pub struct ClonedCellFfi {
    pub cell_id: CellIdFfi,
    pub clone_id: String,
    pub original_dna_hash: Vec<u8>,
    pub dna_modifiers: DnaModifiersFfi,
    pub name: String,
    pub enabled: bool,
}

/// A cell that has not been instantiated yet.
#[derive(Clone, Debug)]
pub struct StemCellFfi {
    pub original_dna_hash: Vec<u8>,
    pub dna_modifiers: DnaModifiersFfi,
    pub name: Option<String>,
}

/// One cell of an app.
#[derive(Clone, Debug)]
pub enum CellInfoFfi {
    Provisioned(ProvisionedCellFfi),
    Cloned(ClonedCellFfi),
    Stem(StemCellFfi),
}

/// Why an app is paused.
#[derive(Clone, Debug)]
pub enum PausedAppReasonFfi {
    Error(String),
}

/// Why an app is disabled.
#[derive(Clone, Debug)]
pub enum DisabledAppReasonFfi {
    NeverStarted,
    NotStartedAfterProvidingMemproofs,
    DeletingAgentKey,
    User,
    Error(String),
}

/// An app's status. `Running` is an enabled app.
#[derive(Clone, Debug)]
pub enum AppInfoStatusFfi {
    Paused { reason: PausedAppReasonFfi },
    Disabled { reason: DisabledAppReasonFfi },
    Running,
    AwaitingMemproofs,
}

/// An installed app: its id, its cells by role, its status and its agent key.
#[derive(Clone, Debug)]
pub struct AppInfoFfi {
    /// The unique identifier for an installed app in this conductor
    pub installed_app_id: String,
    pub cell_info: Vec<(String, Vec<CellInfoFfi>)>,
    pub status: AppInfoStatusFfi,
    pub agent_pub_key: Vec<u8>,
}

/// An app authentication token and its expiry.
#[derive(Clone, Debug)]
pub struct AppAuthenticationTokenIssuedFfi {
    pub token: Vec<u8>,
    pub expires_at: Option<i64>,
}

/// An app websocket: the port of the app interface and its token.
#[derive(Clone, Debug)]
pub struct AppWebsocketFfi {
    pub authentication: AppAuthenticationTokenIssuedFfi,
    pub port: u16,
}

/// An app websocket as one flat record: app, port and token.
#[derive(Clone, Debug)]
pub struct AppWebsocketAuthFFI {
    pub app_id: String,
    pub port: u16,
    pub token: Vec<u8>,
}

/// An unsigned zome call.
#[derive(Clone, Debug)]
pub struct ZomeCallUnsignedFfi {
    pub provenance: Vec<u8>,
    pub cell_id: CellIdFfi,
    pub zome_name: String,
    pub fn_name: String,
    pub cap_secret: Option<Vec<u8>>,
    pub payload: Vec<u8>,
    pub nonce: Vec<u8>,
    pub expires_at: i64,
}

/// A signed zome call.
#[derive(Clone, Debug)]
pub struct ZomeCallFfi {
    pub cell_id: CellIdFfi,
    pub zome_name: String,
    pub fn_name: String,
    pub payload: Vec<u8>,
    pub cap_secret: Option<Vec<u8>>,
    pub provenance: Vec<u8>,
    pub signature: Vec<u8>,
    pub nonce: Vec<u8>,
    pub expires_at: i64,
}

/// How a role is filled on install.
#[derive(Clone, Debug)]
pub enum RoleSettingsFfi {
    UseExisting { cell_id: CellIdFfi },
    Provisioned { membrane_proof: Option<Vec<u8>>, modifiers: Option<DnaModifiersOptFfi> },
}

/// What to install: the encoded app bundle and the install options.
#[derive(Clone, Debug)]
pub struct InstallAppPayloadFfi {
    /// Raw bytes of encoded AppBundle
    pub source: Vec<u8>,
    pub installed_app_id: Option<String>,
    pub network_seed: Option<String>,
    pub roles_settings: Option<Vec<(String, RoleSettingsFfi)>>,
}

/// Where the conductor keeps its data and which servers it uses, as strings.
#[derive(Clone, Debug)]
pub struct RuntimeConfigFfi {
    /// Path where conductor data is stored
    pub data_root_path: String,
    /// URL of the bootstrap server
    pub bootstrap_url: String,
    /// URL of the sbd server
    pub signal_url: String,
}

/// The same record as [`DurationFfi`].
pub type DurationFFI = DurationFfi;

/// The same record as [`DnaModifiersFfi`].
pub type DnaModifiersFFI = DnaModifiersFfi;

/// The same record as [`DnaModifiersOptFfi`].
pub type DnaModifiersOptFFI = DnaModifiersOptFfi;

/// The same record as [`ProvisionedCellFfi`].
pub type ProvisionedCellFFI = ProvisionedCellFfi;

/// The same record as [`ClonedCellFfi`].
pub type ClonedCellFFI = ClonedCellFfi;

/// The same record as [`StemCellFfi`].
pub type StemCellFFI = StemCellFfi;

/// The same record as [`CellInfoFfi`].
pub type CellInfoFFI = CellInfoFfi;

/// The same record as [`PausedAppReasonFfi`].
pub type PausedAppReasonFFI = PausedAppReasonFfi;

/// The same record as [`DisabledAppReasonFfi`].
pub type DisabledAppReasonFFI = DisabledAppReasonFfi;

/// The same record as [`AppInfoStatusFfi`].
pub type AppInfoStatusFFI = AppInfoStatusFfi;

/// The same record as [`AppInfoFfi`].
pub type AppInfoFFI = AppInfoFfi;

/// The same record as [`CellIdFfi`].
pub type CellIdFFI = CellIdFfi;

/// The same record as [`ZomeCallUnsignedFfi`].
pub type ZomeCallUnsignedFFI = ZomeCallUnsignedFfi;

/// The same record as [`ZomeCallFfi`].
pub type ZomeCallFFI = ZomeCallFfi;

/// The same record as [`RoleSettingsFfi`].
pub type RoleSettingsFFI = RoleSettingsFfi;

/// An agent's public key: the 39-byte holo-hash (3-byte type prefix, the 32
/// raw Ed25519 bytes, 4 bytes of location).
#[derive(Clone, Debug)]
pub struct AgentPubKey {
    pub raw_39: Vec<u8>,
}

/// Length of a holo-hash: prefix, core and location.
pub const HOLO_HASH_FULL_LEN: usize = 39;

/// Length of a holo-hash's type prefix.
pub const HOLO_HASH_PREFIX_LEN: usize = 3;

/// Length of a holo-hash's core: the raw 32 bytes.
pub const HOLO_HASH_CORE_LEN: usize = 32;

impl AgentPubKey {
    /// Whether the key has the length of a holo-hash.
    pub open spec fn well_formed(&self) -> bool {
        self.raw_39@.len() == HOLO_HASH_FULL_LEN
    }

    /// The raw 32 Ed25519 bytes the key carries.
    pub open spec fn raw_32(&self) -> Seq<u8> {
        self.raw_39@.subrange(HOLO_HASH_PREFIX_LEN as int, (HOLO_HASH_PREFIX_LEN + HOLO_HASH_CORE_LEN) as int)
    }

    /// A key from its 39 holo-hash bytes, or `None` when the length is wrong.
    pub fn from_raw_39(raw_39: Vec<u8>) -> (r: Option<AgentPubKey>)
        ensures
            r is Some <==> raw_39@.len() == HOLO_HASH_FULL_LEN,
            r matches Some(k) ==> k.raw_39@ == raw_39@,
    {
        if raw_39.len() == HOLO_HASH_FULL_LEN {
            Some(AgentPubKey { raw_39 })
        } else {
            None
        }
    }

    /// The raw 32 Ed25519 bytes: the hash without its prefix and location.
    pub fn get_raw_32(&self) -> (r: Vec<u8>)
        requires
            self.well_formed(),
        ensures
            r@ == self.raw_32(),
            r@.len() == HOLO_HASH_CORE_LEN,
    {
        let mut r: Vec<u8> = Vec::new();
        let mut i: usize = HOLO_HASH_PREFIX_LEN;
        while i < HOLO_HASH_PREFIX_LEN + HOLO_HASH_CORE_LEN
            invariant
                self.well_formed(),
                HOLO_HASH_PREFIX_LEN <= i <= HOLO_HASH_PREFIX_LEN + HOLO_HASH_CORE_LEN,
                r@ == self.raw_39@.subrange(HOLO_HASH_PREFIX_LEN as int, i as int),
            decreases HOLO_HASH_PREFIX_LEN + HOLO_HASH_CORE_LEN - i,
        {
            r.push(self.raw_39[i]);
            i = i + 1;
        }
        r
    }
}

} // verus!
