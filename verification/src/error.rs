//! Errors of the conductor runtime.
//!
//! Every payload is plain text: where a failure carries a value of the
//! conductor or keystore, the variant holds that value as the text it is
//! reported with.

use vstd::prelude::*;
use crate::text::{decimal, decimal_string};

verus! {

/// A failure of the conductor runtime.
#[derive(Debug, Clone)]
pub enum RuntimeError {
    /// The conductor reported an error.
    Conductor(String),
    /// The conductor was never started.
    ConductorNotStarted,
    /// The conductor could not be shut down.
    ConductorShutdown(String),
    /// The admin interface failed to handle a request.
    AdminApiInterface(String),
    /// Cells that failed to start when an app was enabled, as reported.
    AdminApiAppEnabled(String),
    /// The admin interface answered with a response the request does not expect.
    AdminApiBadResponse(String),
    /// Bytes could not be moved to locked memory.
    MoveToLockedMem(String),
    /// A zome call could not be signed.
    ZomeCallParamsInvalid(String),
    /// The lair keystore reported an error.
    Lair(String),
    /// The hc-auth flow failed.
    HcAuth(String),
    /// A seed could not be imported or exported.
    AgentSeed(String),
    /// An app bundle could not be read.
    AppBundle(String),
    /// An install payload named no app id.
    InstalledAppIdNotSpecified,
    /// An app interface for this app is already attached with a different
    /// `Origin` allow-list; one interface per app is cached, so the caller's
    /// request could not be honoured.
    AppInterfaceOriginsMismatch { installed_app_id: String, existing: String, requested: String },
    /// An argument names something that does not exist.
    InvalidArguments(String),
    /// Lair binds a Unix socket at `<data_root>/socket`, and socket paths are
    /// limited to [`crate::config::MAX_SOCKET_PATH_BYTES`] bytes.
    DataRootPathTooLong { path: String, len: usize, max: usize },
    /// A persisted file could not be read or decoded.
    PersistedFileReadError(String),
    /// A persisted file could not be encoded or written.
    PersistedFileWriteError(String),
}

/// Result of a runtime operation.
pub type RuntimeResult<T> = Result<T, RuntimeError>;

/// The text a runtime error is reported with.
pub open spec fn runtime_error_message(e: RuntimeError) -> Seq<char> {
    match e {
        RuntimeError::Conductor(m) => m@,
        RuntimeError::ConductorNotStarted => "Conductor was never started"@,
        RuntimeError::ConductorShutdown(m) => "Failed to shutdown conductor "@ + m@,
        RuntimeError::AdminApiInterface(m) => "Admin Api Interface Error: "@ + m@,
        RuntimeError::AdminApiAppEnabled(m) => "Admin Api App Enabled Errors: "@ + m@,
        RuntimeError::AdminApiBadResponse(m) => "Admin Api Bad Response: "@ + m@,
        RuntimeError::MoveToLockedMem(_) => "Move to Locked Memory Error"@,
        RuntimeError::ZomeCallParamsInvalid(m) => "Failed to sign zome call "@ + m@,
        RuntimeError::Lair(m) => "Lair Error: "@ + m@,
        RuntimeError::HcAuth(m) => "hc-auth error: "@ + m@,
        RuntimeError::AgentSeed(m) => "agent seed error: "@ + m@,
        RuntimeError::AppBundle(_) => "App Bundle Error"@,
        RuntimeError::InstalledAppIdNotSpecified =>
            "InstalledAppId must be specified when installing an app"@,
        RuntimeError::AppInterfaceOriginsMismatch { installed_app_id, existing, requested } =>
            "app interface for "@ + installed_app_id@ + " is already attached for origins "@
                + existing@ + ", not "@ + requested@,
        RuntimeError::InvalidArguments(m) => "Invalid Arguments: "@ + m@,
        RuntimeError::DataRootPathTooLong { path, len, max } =>
            "data root path is too long for lair's socket: "@ + path@ + " is "@
                + decimal(len as nat) + " bytes, the limit is "@ + decimal(max as nat),
        RuntimeError::PersistedFileReadError(m) => "Failed to read persisted file: "@ + m@,
        RuntimeError::PersistedFileWriteError(m) => "Failed to write persisted file: "@ + m@,
    }
}

/// `prefix` followed by `rest`, as a new string.
pub fn concat(prefix: &str, rest: &str) -> (r: String)
    ensures
        r@ == prefix@ + rest@,
{
    let mut s = String::from_str(prefix);
    s.append(rest);
    s
}

impl RuntimeError {
    /// The text this error is reported with.
    pub fn message(&self) -> (r: String)
        ensures
            r@ == runtime_error_message(*self),
    {
        match self {
            RuntimeError::Conductor(m) => m.clone(),
            RuntimeError::ConductorNotStarted => String::from_str("Conductor was never started"),
            RuntimeError::ConductorShutdown(m) => concat("Failed to shutdown conductor ", m.as_str()),
            RuntimeError::AdminApiInterface(m) => concat("Admin Api Interface Error: ", m.as_str()),
            RuntimeError::AdminApiAppEnabled(m) => concat("Admin Api App Enabled Errors: ", m.as_str()),
            RuntimeError::AdminApiBadResponse(m) => concat("Admin Api Bad Response: ", m.as_str()),
            RuntimeError::MoveToLockedMem(_) => String::from_str("Move to Locked Memory Error"),
            RuntimeError::ZomeCallParamsInvalid(m) => concat("Failed to sign zome call ", m.as_str()),
            RuntimeError::Lair(m) => concat("Lair Error: ", m.as_str()),
            RuntimeError::HcAuth(m) => concat("hc-auth error: ", m.as_str()),
            RuntimeError::AgentSeed(m) => concat("agent seed error: ", m.as_str()),
            RuntimeError::AppBundle(_) => String::from_str("App Bundle Error"),
            RuntimeError::InstalledAppIdNotSpecified =>
                String::from_str("InstalledAppId must be specified when installing an app"),
            RuntimeError::AppInterfaceOriginsMismatch { installed_app_id, existing, requested } => {
                let mut s = concat("app interface for ", installed_app_id.as_str());
                s.append(" is already attached for origins ");
                s.append(existing.as_str());
                s.append(", not ");
                s.append(requested.as_str());
                s
            },
            RuntimeError::InvalidArguments(m) => concat("Invalid Arguments: ", m.as_str()),
            RuntimeError::DataRootPathTooLong { path, len, max } => {
                let mut s = concat("data root path is too long for lair's socket: ", path.as_str());
                s.append(" is ");
                let l = decimal_string(*len as u64);
                s.append(l.as_str());
                s.append(" bytes, the limit is ");
                let m = decimal_string(*max as u64);
                s.append(m.as_str());
                s
            },
            RuntimeError::PersistedFileReadError(m) => concat("Failed to read persisted file: ", m.as_str()),
            RuntimeError::PersistedFileWriteError(m) => concat("Failed to write persisted file: ", m.as_str()),
        }
    }
}

} // verus!
