//! The read-only state the status surface renders.
//!
//! The HTTP reporter is outside the library; this module gives it exactly
//! what the core exposes: the connectivity boolean and the three endpoint
//! pair strings. Rendering them as JSON over HTTP is the reporter's
//! concern.

use crate::config::Config;
use crate::config::endpoint;
use vstd::prelude::*;

verus! {

/// What the status surface reads: the configuration and whether a live
/// authenticated session exists right now.
pub struct AppState {
    pub config: Config,
    pub is_connected: bool,
}

impl AppState {
    /// Bundles the record the reporter displays.
    pub fn new(config: Config, is_connected: bool) -> (s: Self)
        ensures
            s.config == config,
            s.is_connected == is_connected,
    {
        AppState { config, is_connected }
    }

    /// The connectivity label shown by the status surface.
    pub fn status_label(&self) -> (s: &'static str)
        ensures
            self.is_connected ==> s@ == "connected"@,
            !self.is_connected ==> s@ == "disconnected"@,
    {
        if self.is_connected {
            "connected"
        } else {
            "disconnected"
        }
    }

    /// The `host:port` form of the SSH endpoint pair.
    pub fn ssh_bind(&self) -> (s: String)
        ensures
            s@ == endpoint(self.config.ssh_host@, self.config.ssh_port),
    {
        self.config.get_ssh_url()
    }

    /// The `host:port` form of the local endpoint pair.
    pub fn local_bind(&self) -> (s: String)
        ensures
            s@ == endpoint(self.config.local_host@, self.config.local_port),
    {
        self.config.get_local_bind()
    }

    /// The `host:port` form of the remote endpoint pair.
    pub fn remote_bind(&self) -> (s: String)
        ensures
            s@ == endpoint(self.config.remote_host@, self.config.remote_port),
    {
        self.config.get_remote_bind()
    }
}

} // verus!
