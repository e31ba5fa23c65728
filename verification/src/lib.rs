//! Verified core of the Holochain conductor runtime and its Tauri integration:
//! configuration checks, the hc-auth protocol, app/window bookkeeping, origin
//! confinement and the plain-data records exchanged over the FFI boundary.

pub mod text;
pub mod config;
pub mod error;
pub mod url;
pub mod origin;
pub mod paths;
pub mod types;
pub mod hc_auth;
pub mod network;
pub mod string_map;
pub mod authorization;
pub mod autostart;
pub mod runtime;
pub mod plugin;
