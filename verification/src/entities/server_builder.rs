//! The builder of server configurations.

use vstd::prelude::*;

use crate::entities::server::{RequestHeader, ServerConfig};

verus! {

/// Why a server configuration could not be built.
#[derive(Debug, Clone)]
pub enum ServerConfigBuilderError {
    /// A field without a default was not set.
    UninitializedField(String),
    /// The settings do not go together.
    ValidationError(String),
}

/// Builds a [`ServerConfig`] setting by setting. Whatever is not set has its
/// default, so building cannot fail.
#[derive(Debug)]
pub struct ServerConfigBuilder {
    config: ServerConfig,
}

impl ServerConfig {
    /// A builder in which nothing is set yet.
    pub fn builder() -> (builder: ServerConfigBuilder)
        ensures
            builder.staged().is_default(),
    {
        ServerConfigBuilder { config: ServerConfig::default() }
    }
}

impl ServerConfigBuilder {
    /// The configuration as it stands: what was set, and the defaults of the
    /// rest.
    pub closed spec fn staged(&self) -> ServerConfig {
        self.config
    }

    /// Sets `address`: the base address of the agent on the server.
    pub fn address(&mut self, value: String) -> (this: &mut Self)
        ensures
            *final(this) == *final(self),
            this.staged() == (ServerConfig { address: value, ..old(self).staged() }),
    {
        self.config.address = value;
        self
    }

    /// Sets `access_client_id`: the Cloudflare access client id to connect with.
    pub fn access_client_id(&mut self, value: String) -> (this: &mut Self)
        ensures
            *final(this) == *final(self),
            this.staged() == (ServerConfig { access_client_id: value, ..old(self).staged() }),
    {
        self.config.access_client_id = value;
        self
    }

    /// Sets `access_client_secret`: the Cloudflare access client secret to connect with.
    pub fn access_client_secret(&mut self, value: String) -> (this: &mut Self)
        ensures
            *final(this) == *final(self),
            this.staged() == (ServerConfig { access_client_secret: value, ..old(self).staged() }),
    {
        self.config.access_client_secret = value;
        self
    }

    /// Sets `external_address`: the address to use in links to the server.
    pub fn external_address(&mut self, value: String) -> (this: &mut Self)
        ensures
            *final(this) == *final(self),
            this.staged() == (ServerConfig { external_address: value, ..old(self).staged() }),
    {
        self.config.external_address = value;
        self
    }

    /// Sets `region`: the region label.
    pub fn region(&mut self, value: String) -> (this: &mut Self)
        ensures
            *final(this) == *final(self),
            this.staged() == (ServerConfig { region: value, ..old(self).staged() }),
    {
        self.config.region = value;
        self
    }

    /// Sets `enabled`: whether the server is enabled.
    pub fn enabled(&mut self, value: bool) -> (this: &mut Self)
        ensures
            *final(this) == *final(self),
            this.staged() == (ServerConfig { enabled: value, ..old(self).staged() }),
    {
        self.config.enabled = value;
        self
    }

    /// Sets `timeout_seconds`: the timeout for reaching the agent, in seconds.
    pub fn timeout_seconds(&mut self, value: i64) -> (this: &mut Self)
        ensures
            *final(this) == *final(self),
            this.staged() == (ServerConfig { timeout_seconds: value, ..old(self).staged() }),
    {
        self.config.timeout_seconds = value;
        self
    }

    /// Sets `passkey`: the passkey to authenticate to the agent with.
    pub fn passkey(&mut self, value: String) -> (this: &mut Self)
        ensures
            *final(this) == *final(self),
            this.staged() == (ServerConfig { passkey: value, ..old(self).staged() }),
    {
        self.config.passkey = value;
        self
    }

    /// Sets `request_headers`: the headers sent with every request to the agent.
    pub fn request_headers(&mut self, value: Vec<RequestHeader>) -> (this: &mut Self)
        ensures
            *final(this) == *final(self),
            this.staged() == (ServerConfig { request_headers: value, ..old(self).staged() }),
    {
        self.config.request_headers = value;
        self
    }

    /// Sets `ignore_mounts`: the mount paths to leave out of the system stats.
    pub fn ignore_mounts(&mut self, value: Vec<String>) -> (this: &mut Self)
        ensures
            *final(this) == *final(self),
            this.staged() == (ServerConfig { ignore_mounts: value, ..old(self).staged() }),
    {
        self.config.ignore_mounts = value;
        self
    }

    /// Sets `stats_monitoring`: whether to monitor server stats beyond the health check.
    pub fn stats_monitoring(&mut self, value: bool) -> (this: &mut Self)
        ensures
            *final(this) == *final(self),
            this.staged() == (ServerConfig { stats_monitoring: value, ..old(self).staged() }),
    {
        self.config.stats_monitoring = value;
        self
    }

    /// Sets `auto_prune`: whether to prune unused images every day.
    pub fn auto_prune(&mut self, value: bool) -> (this: &mut Self)
        ensures
            *final(this) == *final(self),
            this.staged() == (ServerConfig { auto_prune: value, ..old(self).staged() }),
    {
        self.config.auto_prune = value;
        self
    }

    /// Sets `links`: the quick links shown with the server.
    pub fn links(&mut self, value: Vec<String>) -> (this: &mut Self)
        ensures
            *final(this) == *final(self),
            this.staged() == (ServerConfig { links: value, ..old(self).staged() }),
    {
        self.config.links = value;
        self
    }

    /// Sets `send_unreachable_alerts`: whether to alert when the server cannot be reached.
    pub fn send_unreachable_alerts(&mut self, value: bool) -> (this: &mut Self)
        ensures
            *final(this) == *final(self),
            this.staged() == (ServerConfig { send_unreachable_alerts: value, ..old(self).staged() }),
    {
        self.config.send_unreachable_alerts = value;
        self
    }

    /// Sets `send_cpu_alerts`: whether to alert on the CPU status.
    pub fn send_cpu_alerts(&mut self, value: bool) -> (this: &mut Self)
        ensures
            *final(this) == *final(self),
            this.staged() == (ServerConfig { send_cpu_alerts: value, ..old(self).staged() }),
    {
        self.config.send_cpu_alerts = value;
        self
    }

    /// Sets `send_mem_alerts`: whether to alert on the memory status.
    pub fn send_mem_alerts(&mut self, value: bool) -> (this: &mut Self)
        ensures
            *final(this) == *final(self),
            this.staged() == (ServerConfig { send_mem_alerts: value, ..old(self).staged() }),
    {
        self.config.send_mem_alerts = value;
        self
    }

    /// Sets `send_disk_alerts`: whether to alert on the disk status.
    pub fn send_disk_alerts(&mut self, value: bool) -> (this: &mut Self)
        ensures
            *final(this) == *final(self),
            this.staged() == (ServerConfig { send_disk_alerts: value, ..old(self).staged() }),
    {
        self.config.send_disk_alerts = value;
        self
    }

    /// Sets `send_version_mismatch_alerts`: whether to alert when the agent's version differs from the core's.
    pub fn send_version_mismatch_alerts(&mut self, value: bool) -> (this: &mut Self)
        ensures
            *final(this) == *final(self),
            this.staged() == (ServerConfig { send_version_mismatch_alerts: value, ..old(self).staged() }),
    {
        self.config.send_version_mismatch_alerts = value;
        self
    }

    /// The configuration as it stands. The builder can be used further.
    pub fn build(&self) -> (built: Result<ServerConfig, ServerConfigBuilderError>)
        ensures
            built matches Ok(config) && config.same_as(&self.staged()),
    {
        Ok(self.config.copy())
    }
}

} // verus!
