//! The conductor's network settings: the servers it uses, the hc-auth material
//! it presents to them, the settings a user saves, and the local development
//! network.

use vstd::prelude::*;
use crate::config::{RuntimeNetworkConfig, DEFAULT_BOOTSTRAP_URL, DEFAULT_RELAY_URL};
use crate::error::concat;
use crate::text::{decimal, decimal_string};
use crate::url::{Url, url_parses};

verus! {

broadcast use vstd::string::group_string_axioms;

/// The network settings of a conductor that the runtime reads and writes.
#[derive(Clone, Debug)]
pub struct NetworkConfig {
    /// URL of the bootstrap server.
    pub bootstrap_url: Url,
    /// URL of the iroh relay server.
    pub relay_url: Url,
    /// Base64 auth material presented to the bootstrap server.
    pub base64_auth_material_bootstrap: Option<String>,
    /// Base64 auth material presented to the relay server.
    pub base64_auth_material_relay: Option<String>,
    /// Extra transport and gossip settings, as JSON text.
    pub advanced: Option<String>,
}

impl NetworkConfig {
    /// The default network settings: the public development servers
    /// ([`DEFAULT_BOOTSTRAP_URL`], [`DEFAULT_RELAY_URL`]), no auth material and
    /// no extra settings; `None` if either URL does not parse.
    pub fn default_config() -> (r: Option<NetworkConfig>)
        ensures
            r is Some <==> url_parses(DEFAULT_BOOTSTRAP_URL@) && url_parses(DEFAULT_RELAY_URL@),
            r matches Some(c) ==> c.bootstrap_url.parsed_from(DEFAULT_BOOTSTRAP_URL@)
                && c.relay_url.parsed_from(DEFAULT_RELAY_URL@)
                && c.base64_auth_material_bootstrap is None
                && c.base64_auth_material_relay is None
                && c.advanced is None,
    {
        match (Url::parse(DEFAULT_BOOTSTRAP_URL), Url::parse(DEFAULT_RELAY_URL)) {
            (Some(b), Some(r)) => Some(NetworkConfig {
                bootstrap_url: b,
                relay_url: r,
                base64_auth_material_bootstrap: None,
                base64_auth_material_relay: None,
                advanced: None,
            }),
            _ => None,
        }
    }

    /// A copy of these settings.
    pub fn duplicate(&self) -> (r: NetworkConfig)
        ensures
            r == *self,
    {
        NetworkConfig {
            bootstrap_url: self.bootstrap_url.duplicate(),
            relay_url: self.relay_url.duplicate(),
            base64_auth_material_bootstrap: crate::url::copy_opt_string(&self.base64_auth_material_bootstrap),
            base64_auth_material_relay: crate::url::copy_opt_string(&self.base64_auth_material_relay),
            advanced: crate::url::copy_opt_string(&self.advanced),
        }
    }

    /// The network settings of a [`RuntimeNetworkConfig`]: its two servers,
    /// and otherwise the defaults (no auth material, no extra settings).
    pub fn from_runtime_network_config(val: RuntimeNetworkConfig) -> (r: NetworkConfig)
        ensures
            r.bootstrap_url == val.bootstrap_url,
            r.relay_url == val.relay_url,
            r.base64_auth_material_bootstrap is None,
            r.base64_auth_material_relay is None,
            r.advanced is None,
    {
        NetworkConfig {
            bootstrap_url: val.bootstrap_url,
            relay_url: val.relay_url,
            base64_auth_material_bootstrap: None,
            base64_auth_material_relay: None,
            advanced: None,
        }
    }
}

/// `network` with `material`, when there is some, written to the bootstrap slot
/// if `to_bootstrap` and to the relay slot if `to_relay`; every other field is
/// kept.
pub open spec fn with_auth_material(network: NetworkConfig, material: Option<String>, to_bootstrap: bool, to_relay: bool) -> NetworkConfig {
    match material {
        Some(m) => NetworkConfig {
            base64_auth_material_bootstrap: if to_bootstrap { Some(m) } else { network.base64_auth_material_bootstrap },
            base64_auth_material_relay: if to_relay { Some(m) } else { network.base64_auth_material_relay },
            ..network
        },
        None => network,
    }
}

/// Write hc-auth material into the network's auth-material slots: the
/// bootstrap slot if `to_bootstrap`, the relay slot if `to_relay`. Without
/// material the network is left as it is.
pub fn inject_auth_material(network: &mut NetworkConfig, material: &Option<String>, to_bootstrap: bool, to_relay: bool)
    ensures
        *final(network) == with_auth_material(*old(network), *material, to_bootstrap, to_relay),
        *material matches Some(m) ==> (to_bootstrap ==> final(network).base64_auth_material_bootstrap == Some(m)),
        *material matches Some(m) ==> (to_relay ==> final(network).base64_auth_material_relay == Some(m)),
        material is None || !to_bootstrap ==> final(network).base64_auth_material_bootstrap == old(network).base64_auth_material_bootstrap,
        material is None || !to_relay ==> final(network).base64_auth_material_relay == old(network).base64_auth_material_relay,
        final(network).bootstrap_url == old(network).bootstrap_url,
        final(network).relay_url == old(network).relay_url,
        final(network).advanced == old(network).advanced,
{
    match material {
        Some(m) => {
            if to_bootstrap {
                network.base64_auth_material_bootstrap = Some(m.clone());
            }
            if to_relay {
                network.base64_auth_material_relay = Some(m.clone());
            }
        },
        None => {},
    }
}

/// Auth material lands in each slot that is selected, whatever the other flag
/// says, and a slot that is not selected (or no material at all) leaves that
/// slot as it was.
pub proof fn auth_material_fills_each_selected_slot(network: NetworkConfig, material: Option<String>, to_bootstrap: bool, to_relay: bool)
    ensures
        material matches Some(m) ==> (to_bootstrap
            ==> with_auth_material(network, material, to_bootstrap, to_relay).base64_auth_material_bootstrap == Some(m)),
        material matches Some(m) ==> (to_relay
            ==> with_auth_material(network, material, to_bootstrap, to_relay).base64_auth_material_relay == Some(m)),
        material is None || !to_bootstrap
            ==> with_auth_material(network, material, to_bootstrap, to_relay).base64_auth_material_bootstrap
                == network.base64_auth_material_bootstrap,
        material is None || !to_relay
            ==> with_auth_material(network, material, to_bootstrap, to_relay).base64_auth_material_relay
                == network.base64_auth_material_relay,
{
}

/// Injecting the same material twice leaves the network as injecting it once,
/// and the URLs and advanced settings are never touched.
pub proof fn auth_material_injection_is_idempotent(network: NetworkConfig, material: Option<String>, to_bootstrap: bool, to_relay: bool)
    ensures
        with_auth_material(with_auth_material(network, material, to_bootstrap, to_relay), material, to_bootstrap, to_relay)
            == with_auth_material(network, material, to_bootstrap, to_relay),
        with_auth_material(network, material, to_bootstrap, to_relay).bootstrap_url == network.bootstrap_url,
        with_auth_material(network, material, to_bootstrap, to_relay).relay_url == network.relay_url,
        with_auth_material(network, material, to_bootstrap, to_relay).advanced == network.advanced,
{
}

/// Saved bootstrap and relay URLs. A field left `None` keeps the app's value.
#[derive(Clone, Debug)]
pub struct UserNetworkConfig {
    pub bootstrap_url: Option<Url>,
    pub relay_url: Option<Url>,
}

/// `network` with the URLs that `saved` sets.
pub open spec fn overridden(saved: UserNetworkConfig, network: NetworkConfig) -> NetworkConfig {
    NetworkConfig {
        bootstrap_url: match saved.bootstrap_url { Some(u) => u, None => network.bootstrap_url },
        relay_url: match saved.relay_url { Some(u) => u, None => network.relay_url },
        ..network
    }
}

/// Saved settings override only the URLs they set: an unset URL keeps the
/// app's value, every other field is kept, and applying the same settings again
/// changes nothing.
pub proof fn saved_settings_override_only_what_they_set(saved: UserNetworkConfig, network: NetworkConfig)
    ensures
        saved.bootstrap_url is None ==> overridden(saved, network).bootstrap_url == network.bootstrap_url,
        saved.relay_url is None ==> overridden(saved, network).relay_url == network.relay_url,
        saved.bootstrap_url matches Some(u) ==> overridden(saved, network).bootstrap_url == u,
        saved.relay_url matches Some(u) ==> overridden(saved, network).relay_url == u,
        overridden(saved, network).base64_auth_material_bootstrap == network.base64_auth_material_bootstrap,
        overridden(saved, network).base64_auth_material_relay == network.base64_auth_material_relay,
        overridden(saved, network).advanced == network.advanced,
        overridden(saved, overridden(saved, network)) == overridden(saved, network),
{
}

impl UserNetworkConfig {
    /// Override `network`'s URLs with the ones set here.
    pub fn apply_to(&self, network: &mut NetworkConfig)
        ensures
            *final(network) == overridden(*self, *old(network)),
    {
        match &self.bootstrap_url {
            Some(url) => { network.bootstrap_url = url.duplicate(); },
            None => {},
        }
        match &self.relay_url {
            Some(url) => { network.relay_url = url.duplicate(); },
            None => {},
        }
    }

    /// Apply what reading the saved settings gave: saved settings override the
    /// URLs they set; nothing saved, or a file that could not be read, leaves
    /// `network` as it is, so a corrupt file cannot stop the app from starting.
    /// Returns the read error, for the caller to report.
    pub fn apply_saved<E>(read: Result<Option<UserNetworkConfig>, E>, network: &mut NetworkConfig) -> (r: Option<E>)
        ensures
            match read {
                Ok(Some(saved)) => *final(network) == overridden(saved, *old(network)) && r is None,
                Ok(None) => *final(network) == *old(network) && r is None,
                Err(e) => *final(network) == *old(network) && r == Some(e),
            },
    {
        match read {
            Ok(Some(saved)) => {
                saved.apply_to(network);
                None
            },
            Ok(None) => None,
            Err(e) => Some(e),
        }
    }

    /// The default bootstrap and relay URLs, to prefill or reset a settings
    /// form; `None` if the defaults do not parse.
    pub fn default_user_network_config() -> (r: Option<UserNetworkConfig>)
        ensures
            r is Some <==> url_parses(DEFAULT_BOOTSTRAP_URL@) && url_parses(DEFAULT_RELAY_URL@),
            r matches Some(c) ==> (c.bootstrap_url matches Some(b) && b.parsed_from(DEFAULT_BOOTSTRAP_URL@))
                && (c.relay_url matches Some(u) && u.parsed_from(DEFAULT_RELAY_URL@)),
    {
        match NetworkConfig::default_config() {
            Some(defaults) => Some(UserNetworkConfig {
                bootstrap_url: Some(defaults.bootstrap_url),
                relay_url: Some(defaults.relay_url),
            }),
            None => None,
        }
    }

    /// The settings a user saves from the settings form: both URLs set.
    pub fn from_urls(bootstrap_url: Url, relay_url: Url) -> (r: UserNetworkConfig)
        ensures
            r.bootstrap_url == Some(bootstrap_url),
            r.relay_url == Some(relay_url),
    {
        UserNetworkConfig { bootstrap_url: Some(bootstrap_url), relay_url: Some(relay_url) }
    }
}

/// Gossip `initiateBurstFactor` used on dev networks, in place of kitsune2's
/// default of 3.
///
/// A peer accepts `initiateBurstFactor x initiateBurstWindowCount` gossip rounds
/// from any one peer per window and drops the rest; on a two- or three-agent
/// network a node below its target arc reaches the default limit within
/// seconds. It is a per-peer flood guard, so this is set for dev only.
pub const DEV_INITIATE_BURST_FACTOR: u32 = 100;

/// The `advanced` settings of a dev network: the local relay is plain `http://`,
/// and the gossip burst factor is raised.
pub open spec fn dev_advanced_json() -> Seq<char> {
    "{\"irohTransport\":{\"relayAllowPlainText\":true},\"k2Gossip\":{\"initiateBurstFactor\":"@
        + decimal(DEV_INITIATE_BURST_FACTOR as nat) + "}}"@
}

/// The `advanced` JSON text of a dev network.
pub fn dev_advanced() -> (r: String)
    ensures
        r@ == dev_advanced_json(),
{
    let n = decimal_string(DEV_INITIATE_BURST_FACTOR as u64);
    let mut s = concat("{\"irohTransport\":{\"relayAllowPlainText\":true},\"k2Gossip\":{\"initiateBurstFactor\":", n.as_str());
    s.append("}}");
    s
}

/// A [`NetworkConfig`] that uses `url` (e.g. `http://192.168.1.20:8888`) as both
/// the bootstrap server and the iroh relay, as `kitsune2-bootstrap-srv` serves
/// both on one address, with the dev `advanced` settings
/// (`irohTransport.relayAllowPlainText` and `k2Gossip.initiateBurstFactor` =
/// [`DEV_INITIATE_BURST_FACTOR`]). `url` must parse, as must the default URLs
/// whose other settings it keeps; [`try_dev_network_config`] checks first.
///
/// Every agent on a dev network must be given the same `url`: peers advertise
/// their relay URL, and kitsune2 fails the connection preflight for a peer on a
/// relay it doesn't know.
pub fn dev_network_config(url: &str) -> (r: NetworkConfig)
    requires
        url_parses(url@),
        url_parses(DEFAULT_BOOTSTRAP_URL@),
        url_parses(DEFAULT_RELAY_URL@),
    ensures
        r.bootstrap_url.parsed_from(url@),
        r.relay_url.parsed_from(url@),
        r.base64_auth_material_bootstrap is None,
        r.base64_auth_material_relay is None,
        r.advanced matches Some(a) && a@ == dev_advanced_json(),
{
    let defaults = NetworkConfig::default_config().unwrap();
    let u = Url::parse(url).unwrap();
    NetworkConfig {
        bootstrap_url: u.duplicate(),
        relay_url: u,
        advanced: Some(dev_advanced()),
        ..defaults
    }
}

/// [`dev_network_config`] for a `url` that may not parse: `None` where `url`
/// (or a default URL) does not parse, where [`dev_network_config`] may not be
/// called.
pub fn try_dev_network_config(url: &str) -> (r: Option<NetworkConfig>)
    ensures
        r is Some <==> url_parses(url@) && url_parses(DEFAULT_BOOTSTRAP_URL@) && url_parses(DEFAULT_RELAY_URL@),
        r matches Some(c) ==> c.bootstrap_url.parsed_from(url@)
            && c.relay_url.parsed_from(url@)
            && c.base64_auth_material_bootstrap is None
            && c.base64_auth_material_relay is None
            && (c.advanced matches Some(a) && a@ == dev_advanced_json()),
{
    if NetworkConfig::default_config().is_some() && Url::parse(url).is_some() {
        Some(dev_network_config(url))
    } else {
        None
    }
}

/// Which platform the dev network URL is picked for.
#[derive(Clone, Copy, Debug)]
pub enum DevPlatform {
    Android,
    Ios,
    Desktop,
}

/// The host used when `INTERNAL_IP` is not set: the Android emulator's alias
/// for the host machine, otherwise the loopback address.
pub open spec fn default_dev_host(platform: DevPlatform) -> Seq<char> {
    match platform {
        DevPlatform::Android => "10.0.2.2"@,
        _ => "127.0.0.1"@,
    }
}

/// The local dev network URL, `http://<INTERNAL_IP>:<BOOTSTRAP_PORT>`, from the
/// two settings when given (read at run time on desktop, at build time on
/// Android and iOS), else from the platform's default host and port `8888`.
pub fn dev_network_url(platform: DevPlatform, internal_ip: Option<String>, bootstrap_port: Option<String>) -> (r: String)
    ensures
        r@ == "http://"@
            + match internal_ip { Some(h) => h@, None => default_dev_host(platform) }
            + ":"@
            + match bootstrap_port { Some(p) => p@, None => "8888"@ },
{
    let host = match internal_ip {
        Some(h) => h,
        None => match platform {
            DevPlatform::Android => String::from_str("10.0.2.2"),
            _ => String::from_str("127.0.0.1"),
        },
    };
    let port = match bootstrap_port {
        Some(p) => p,
        None => String::from_str("8888"),
    };
    let mut s = concat("http://", host.as_str());
    s.append(":");
    s.append(port.as_str());
    s
}

} // verus!
