//! Whether the runtime starts on boot, and with which network settings.
//!
//! This does *not* start the runtime: it is a setting the host reads during its
//! boot process. The host persists it in [`PERSISTED_FILE_NAME`] under the data
//! root.

use vstd::prelude::*;
use crate::config::{join_path, path_join, RuntimeNetworkConfig};

verus! {

broadcast use vstd::string::group_string_axioms;

/// Name of the file the setting is persisted to.
pub const PERSISTED_FILE_NAME: &'static str = "autostart_config.msgpack";

/// Is auto start on boot enabled?
#[derive(Debug)]
pub struct AutostartConfig {
    /// `Some(config)` to start on boot with that network config, `None` to
    /// not start on boot.
    pub enabled_config: Option<RuntimeNetworkConfig>,
}

/// A copy of a network config.
pub fn copy_network_config(c: &RuntimeNetworkConfig) -> (r: RuntimeNetworkConfig)
    ensures
        r == *c,
{
    RuntimeNetworkConfig { bootstrap_url: c.bootstrap_url.duplicate(), relay_url: c.relay_url.duplicate() }
}

/// The autostart setting and the file it is persisted to.
#[derive(Debug)]
pub struct AutostartConfigManager {
    pub autostart_config: AutostartConfig,
    pub persisted_path: String,
}

impl AutostartConfigManager {
    /// A manager for the data root `data_root_path`, starting from what the
    /// persisted file holds; autostart is disabled when there is no file.
    pub fn new(data_root_path: &str, persisted: Option<AutostartConfig>) -> (r: AutostartConfigManager)
        ensures
            r.persisted_path@ == path_join(data_root_path@, PERSISTED_FILE_NAME@),
            match persisted {
                Some(p) => r.autostart_config == p,
                None => r.autostart_config.enabled_config is None,
            },
    {
        let persisted_path = join_path(data_root_path, PERSISTED_FILE_NAME);
        let autostart_config = match persisted {
            Some(p) => p,
            None => AutostartConfig { enabled_config: None },
        };
        AutostartConfigManager { autostart_config, persisted_path }
    }

    /// Enable autostart with the given network config; the host then saves the
    /// setting to [`Self::get_file_path`].
    pub fn enable(&mut self, config: RuntimeNetworkConfig)
        ensures
            final(self).autostart_config.enabled_config == Some(config),
            final(self).persisted_path == old(self).persisted_path,
    {
        self.autostart_config.enabled_config = Some(config);
    }

    /// Disable autostart; the host then saves the setting.
    pub fn disable(&mut self)
        ensures
            final(self).autostart_config.enabled_config is None,
            final(self).persisted_path == old(self).persisted_path,
    {
        self.autostart_config.enabled_config = None;
    }

    /// The network config to start with on boot, or `None` when autostart is
    /// disabled.
    pub fn get_enabled_config(&self) -> (r: Option<RuntimeNetworkConfig>)
        ensures
            r == self.autostart_config.enabled_config,
    {
        match &self.autostart_config.enabled_config {
            Some(c) => Some(copy_network_config(c)),
            None => None,
        }
    }

    /// The file the setting is persisted to.
    pub fn get_file_path(&self) -> (r: String)
        ensures
            r@ == self.persisted_path@,
    {
        self.persisted_path.clone()
    }
}

} // verus!
