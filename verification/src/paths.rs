//! Where an app keeps its conductor data and its saved network settings.
//!
//! A dev build gives each running instance its own directory: the first
//! `<root>/holochain-<n>` whose lock no other process holds.

use vstd::prelude::*;
use crate::config::{
    path_join, join_path, check_data_root_path, data_root_path_check, socket_limit,
    SocketPlatform,
};
use crate::error::RuntimeError;
use crate::plugin::Error;
use crate::text::{decimal, decimal_string};

verus! {

broadcast use vstd::string::group_string_axioms;

/// How many dev instances can run at once, each with its own conductor data.
pub const MAX_DEV_INSTANCES: usize = 10;

/// The name of the saved network settings file.
pub const USER_NETWORK_CONFIG_FILE: &'static str = "user-network-config.json";

/// The name of the shared data directory: the production layout's, and the dev
/// fallback when every instance slot is taken.
pub const SHARED_DATA_DIR: &'static str = "holochain";

/// File locations for an app built on the plugin.
#[derive(Clone, Debug)]
pub struct AppPaths {
    /// Conductor and keystore data.
    pub holochain_dir: String,
    /// The saved network settings file.
    pub user_network_config: String,
}

/// The path of the saved user network settings file, as the app manages it.
#[derive(Clone, Debug)]
pub struct UserNetworkConfigPath(pub String);

/// The data directory of dev instance `n` under `root`: `<root>/holochain-<n>`.
pub open spec fn dev_instance_dir_spec(root: Seq<char>, n: nat) -> Seq<char> {
    path_join(root, "holochain-"@ + decimal(n))
}

/// The data directory of dev instance `n` under `root`.
pub fn dev_instance_dir(root: &str, n: usize) -> (r: String)
    ensures
        r@ == dev_instance_dir_spec(root@, n as nat),
{
    proof {
        reveal_strlit("holochain-");
    }
    let mut name = String::from_str("holochain-");
    let digits = decimal_string(n as u64);
    name.append(digits.as_str());
    join_path(root, name.as_str())
}

/// Whether `out` is a possible answer of `try_lock` for the directory `dir`.
pub open spec fn lock_outcome<F: Fn(&String) -> Result<bool, String>>(
    try_lock: F,
    dir: Seq<char>,
    out: Result<bool, String>,
) -> bool {
    exists|d: String| d@ == dir && #[trigger] call_ensures(try_lock, (&d,), out)
}

/// Whether `try_lock` may have reported every slot below `n` as held by another
/// process.
pub open spec fn slots_held_below<F: Fn(&String) -> Result<bool, String>>(
    try_lock: F,
    root: Seq<char>,
    n: nat,
) -> bool {
    forall|k: nat| k < n ==> lock_outcome(try_lock, #[trigger] dev_instance_dir_spec(root, k), Ok(false))
}

/// Take the first `<root>/holochain-<n>` whose lock `try_lock` obtains, trying
/// `n` from 0 up to [`MAX_DEV_INSTANCES`]; fall back to `<root>/holochain` when
/// every slot is held.
///
/// `try_lock` creates the directory and tries to lock it exclusively, keeping
/// the lock for the life of the process: `Ok(true)` if it got the lock,
/// `Ok(false)` if another process holds it, `Err` with the cause if it failed.
/// A failure stops the search with [`Error::AppPaths`] `<dir>: <cause>`.
pub fn claim_dev_instance_dir<F: Fn(&String) -> Result<bool, String>>(root: &str, try_lock: F) -> (r: Result<String, Error>)
    requires
        forall|d: &String| call_requires(try_lock, (d,)),
    ensures
        match r {
            Ok(dir) => {
                ||| exists|n: nat| n < MAX_DEV_INSTANCES && dir@ == #[trigger] dev_instance_dir_spec(root@, n)
                    && slots_held_below(try_lock, root@, n)
                    && lock_outcome(try_lock, dir@, Ok(true))
                ||| dir@ == path_join(root@, SHARED_DATA_DIR@)
                    && slots_held_below(try_lock, root@, MAX_DEV_INSTANCES as nat)
            },
            Err(e) => exists|n: nat, m: String| n < MAX_DEV_INSTANCES
                && slots_held_below(try_lock, root@, n)
                && #[trigger] lock_outcome(try_lock, dev_instance_dir_spec(root@, n), Err(m))
                && (e matches Error::AppPaths(t) && t@ == dev_instance_dir_spec(root@, n) + ": "@ + m@),
        },
{
    let mut n: usize = 0;
    while n < MAX_DEV_INSTANCES
        invariant
            n <= MAX_DEV_INSTANCES,
            forall|d: &String| call_requires(try_lock, (d,)),
            slots_held_below(try_lock, root@, n as nat),
        decreases MAX_DEV_INSTANCES - n,
    {
        let dir = dev_instance_dir(root, n);
        let outcome = try_lock(&dir);
        match outcome {
            Ok(true) => {
                proof {
                    assert(lock_outcome(try_lock, dir@, Ok(true)));
                    assert(dir@ == dev_instance_dir_spec(root@, n as nat));
                }
                return Ok(dir);
            },
            Ok(false) => {
                proof {
                    assert(lock_outcome(try_lock, dir@, Ok(false)));
                    assert forall|k: nat| k < n + 1 implies lock_outcome(try_lock, #[trigger] dev_instance_dir_spec(root@, k), Ok(false)) by {
                        if k < n {
                            assert(slots_held_below(try_lock, root@, n as nat));
                        }
                    }
                }
                n = n + 1;
            },
            Err(cause) => {
                proof {
                    assert(lock_outcome(try_lock, dir@, Err(cause)));
                    reveal_strlit(": ");
                }
                let mut text = dir.clone();
                text.append(": ");
                text.append(cause.as_str());
                let e = Error::AppPaths(text);
                proof {
                    assert(lock_outcome(try_lock, dev_instance_dir_spec(root@, n as nat), Err(cause)));
                }
                return Err(e);
            },
        }
    }
    Ok(join_path(root, SHARED_DATA_DIR))
}

/// The data directory of an app's layout: the claimed dev directory, else
/// `<root>/holochain`.
pub open spec fn holochain_dir_spec(root: Seq<char>, dev_dir: Option<String>) -> Seq<char> {
    match dev_dir {
        Some(d) => d@,
        None => path_join(root, SHARED_DATA_DIR@),
    }
}

/// The settings file of an app's layout: inside the dev directory, else beside
/// the data directory under `root`.
pub open spec fn user_network_config_spec(root: Seq<char>, dev_dir: Option<String>) -> Seq<char> {
    match dev_dir {
        Some(d) => path_join(d@, USER_NETWORK_CONFIG_FILE@),
        None => path_join(root, USER_NETWORK_CONFIG_FILE@),
    }
}

/// The file locations under the app's data `root`, in the dev layout when a
/// dev instance directory was claimed and the production layout otherwise:
///
/// - production: `<root>/holochain`, with `<root>/user-network-config.json`;
/// - dev: the claimed directory, with the settings file inside it.
///
/// Fails when lair's socket under the data directory would be longer than the
/// limit of `platform` (see [`check_data_root_path`]).
pub fn layout_app_paths(root: &str, dev_dir: Option<String>, platform: SocketPlatform) -> (r: Result<AppPaths, Error>)
    ensures
        match data_root_path_check(holochain_dir_spec(root@, dev_dir), socket_limit(platform)) {
            None => r matches Ok(p) && p.holochain_dir@ == holochain_dir_spec(root@, dev_dir)
                && p.user_network_config@ == user_network_config_spec(root@, dev_dir),
            Some((socket, len)) => r matches Err(Error::Runtime(RuntimeError::DataRootPathTooLong { path, len: l, max: m }))
                && path@ == socket && l == len && m == socket_limit(platform),
        },
{
    let paths = match dev_dir {
        Some(d) => {
            let unc = join_path(d.as_str(), USER_NETWORK_CONFIG_FILE);
            AppPaths { holochain_dir: d, user_network_config: unc }
        },
        None => AppPaths {
            holochain_dir: join_path(root, SHARED_DATA_DIR),
            user_network_config: join_path(root, USER_NETWORK_CONFIG_FILE),
        },
    };
    match check_data_root_path(paths.holochain_dir.as_str(), platform) {
        Ok(()) => Ok(paths),
        Err(e) => Err(Error::Runtime(e)),
    }
}

} // verus!
