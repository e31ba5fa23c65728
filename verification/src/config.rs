//! Conductor configuration and the data-root path check.
//!
//! Paths are held as strings and joined with `/`, the separator of the Unix
//! platforms whose socket limit the check enforces.

use vstd::prelude::*;
use crate::error::{RuntimeError, RuntimeResult};
use crate::url::{Url, url_parses};

verus! {

broadcast use vstd::string::group_string_axioms;

/// The lair tag of the device seed.
pub const DEVICE_SEED_LAIR_TAG: &'static str = "device-seed";

/// The longest Unix socket path, in bytes, that lair can bind on Linux and
/// Android: `sun_path` is 108 bytes there, including the terminating NUL.
pub const MAX_SOCKET_PATH_BYTES: usize = 107;

/// The longest Unix socket path, in bytes, that lair can bind on Apple
/// platforms: `sun_path` is 104 bytes there, including the terminating NUL.
pub const APPLE_MAX_SOCKET_PATH_BYTES: usize = 103;

/// `name` adjoined to `base` as `Path::join` does for a relative component:
/// with a `/` in between unless `base` is empty or already ends in one.
pub open spec fn path_join(base: Seq<char>, name: Seq<char>) -> Seq<char> {
    if base.len() == 0 {
        name
    } else if base.last() == '/' {
        base + name
    } else {
        base + seq!['/'] + name
    }
}

/// The UTF-8 bytes of `s`.
pub open spec fn utf8_bytes(s: Seq<char>) -> Seq<u8> {
    vstd::utf8::encode_utf8(s)
}

/// `name` adjoined to the path `base` (see [`path_join`]).
pub fn join_path(base: &str, name: &str) -> (r: String)
    ensures
        r@ == path_join(base@, name@),
{
    let n = base.unicode_len();
    if n == 0 {
        String::from_str(name)
    } else if base.get_char(n - 1) == '/' {
        let mut s = String::from_str(base);
        s.append(name);
        s
    } else {
        let mut s = String::from_str(base);
        proof {
            reveal_strlit("/");
        }
        s.append("/");
        s.append(name);
        s
    }
}

/// The path of lair's socket under `data_root_path`.
pub open spec fn socket_path(data_root_path: Seq<char>) -> Seq<char> {
    path_join(data_root_path, "socket"@)
}

/// What [`check_data_root_path_with_limit`] returns for `data_root_path` and
/// the limit `max`.
pub open spec fn data_root_path_check(data_root_path: Seq<char>, max: usize) -> Option<(Seq<char>, nat)> {
    let socket = socket_path(data_root_path);
    let len = utf8_bytes(socket).len();
    if len > max {
        Some((socket, len))
    } else {
        None
    }
}

/// Check that lair's socket under `data_root_path` is at most `max` bytes long.
pub fn check_data_root_path_with_limit(data_root_path: &str, max: usize) -> (r: RuntimeResult<()>)
    ensures
        match data_root_path_check(data_root_path@, max) {
            None => r is Ok,
            Some((socket, len)) => r matches Err(RuntimeError::DataRootPathTooLong { path, len: l, max: m })
                && path@ == socket && l as nat == len && m == max,
        },
{
    let socket = join_path(data_root_path, "socket");
    let len = socket.as_str().as_bytes().len();
    if len > max {
        return Err(RuntimeError::DataRootPathTooLong { path: socket, len, max });
    }
    Ok(())
}

/// The platform family whose Unix socket path limit applies.
#[derive(Clone, Copy, Debug)]
pub enum SocketPlatform {
    /// Linux and Android: [`MAX_SOCKET_PATH_BYTES`].
    LinuxOrAndroid,
    /// macOS and iOS: [`APPLE_MAX_SOCKET_PATH_BYTES`].
    Apple,
}

/// The longest socket path lair can bind on `platform`.
pub open spec fn socket_limit(platform: SocketPlatform) -> usize {
    match platform {
        SocketPlatform::LinuxOrAndroid => MAX_SOCKET_PATH_BYTES,
        SocketPlatform::Apple => APPLE_MAX_SOCKET_PATH_BYTES,
    }
}

/// The longest socket path lair can bind on `platform`.
pub fn max_socket_path_bytes(platform: SocketPlatform) -> (r: usize)
    ensures
        r == socket_limit(platform),
{
    match platform {
        SocketPlatform::LinuxOrAndroid => MAX_SOCKET_PATH_BYTES,
        SocketPlatform::Apple => APPLE_MAX_SOCKET_PATH_BYTES,
    }
}

/// Check that lair's socket under `data_root_path` fits the Unix socket path
/// limit of `platform`: [`MAX_SOCKET_PATH_BYTES`] on Linux and Android,
/// [`APPLE_MAX_SOCKET_PATH_BYTES`] on macOS and iOS.
///
/// The in-process keystore binds a socket at `<data_root>/socket`, and an
/// over-long path otherwise fails deep inside lair.
pub fn check_data_root_path(data_root_path: &str, platform: SocketPlatform) -> (r: RuntimeResult<()>)
    ensures
        match data_root_path_check(data_root_path@, socket_limit(platform)) {
            None => r is Ok,
            Some((socket, len)) => r matches Err(RuntimeError::DataRootPathTooLong { path, len: l, max: m })
                && path@ == socket && l as nat == len && m == socket_limit(platform),
        },
{
    check_data_root_path_with_limit(data_root_path, max_socket_path_bytes(platform))
}

/// The default bootstrap server.
pub const DEFAULT_BOOTSTRAP_URL: &'static str = "https://dev-test-bootstrap2.holochain.org";

/// The default iroh relay server.
pub const DEFAULT_RELAY_URL: &'static str = "https://use1-1.relay.n0.iroh-canary.iroh.link./";

/// The bootstrap and relay servers a conductor uses.
#[derive(Clone, Debug)]
pub struct RuntimeNetworkConfig {
    /// URL of the bootstrap server
    pub bootstrap_url: Url,
    /// URL of the iroh relay server
    pub relay_url: Url,
}

impl RuntimeNetworkConfig {
    /// The public development servers, [`DEFAULT_BOOTSTRAP_URL`] and
    /// [`DEFAULT_RELAY_URL`], parsed; `None` if either does not parse.
    pub fn default_config() -> (r: Option<RuntimeNetworkConfig>)
        ensures
            r is Some <==> url_parses(DEFAULT_BOOTSTRAP_URL@) && url_parses(DEFAULT_RELAY_URL@),
            r matches Some(c) ==> c.bootstrap_url.parsed_from(DEFAULT_BOOTSTRAP_URL@)
                && c.relay_url.parsed_from(DEFAULT_RELAY_URL@),
    {
        match (Url::parse(DEFAULT_BOOTSTRAP_URL), Url::parse(DEFAULT_RELAY_URL)) {
            (Some(b), Some(r)) => Some(RuntimeNetworkConfig { bootstrap_url: b, relay_url: r }),
            _ => None,
        }
    }
}

} // verus!
