//! Managed servers: their configuration, state and health.

use std::collections::HashMap;
use std::path::PathBuf;

use vstd::prelude::*;

use crate::entities::alert::SeverityLevel;

verus! {

/// A path of the file system, held as it is.
#[verifier::external_type_specification]
#[verifier::external_body]
pub struct ExPathBuf(PathBuf);

/// One header sent with every request to the agent of a server.
#[derive(Debug, Clone)]
pub struct RequestHeader {
    /// The header name.
    pub name: String,
    /// The header value.
    pub value: String,
}

/// Server configuration.
#[derive(Debug, Clone)]
pub struct ServerConfig {
    /// The base address of the agent on the server.
    pub address: String,
    /// The Cloudflare access client id to connect with. Empty for none.
    pub access_client_id: String,
    /// The Cloudflare access client secret to connect with. Empty for none.
    pub access_client_secret: String,
    /// The address to use in links to the server. Empty to use `address`.
    pub external_address: String,
    /// An optional region label.
    pub region: String,
    /// Whether the server is enabled. No action can be taken on a disabled
    /// server.
    pub enabled: bool,
    /// The timeout for reaching the agent, in seconds.
    pub timeout_seconds: i64,
    /// The passkey to authenticate to the agent with. Empty to use the
    /// passkey of the core configuration.
    pub passkey: String,
    /// The headers sent with every request to the agent, passed through as
    /// they are.
    pub request_headers: Vec<RequestHeader>,
    /// Mount paths to leave out of the system stats.
    pub ignore_mounts: Vec<String>,
    /// Whether to monitor server stats beyond the health check.
    pub stats_monitoring: bool,
    /// Whether to prune unused images every day.
    pub auto_prune: bool,
    /// Quick links shown with the server.
    pub links: Vec<String>,
    /// Whether to alert when the server cannot be reached.
    pub send_unreachable_alerts: bool,
    /// Whether to alert on the CPU status.
    pub send_cpu_alerts: bool,
    /// Whether to alert on the memory status.
    pub send_mem_alerts: bool,
    /// Whether to alert on the disk status.
    pub send_disk_alerts: bool,
    /// Whether to alert when the agent's version differs from the core's.
    pub send_version_mismatch_alerts: bool,
}

/// The default agent address.
pub fn default_address() -> (address: String)
    ensures
        address@ == "https://periphery:8120"@,
{
    "https://periphery:8120".to_owned()
}

/// Servers start out disabled.
pub fn default_enabled() -> (enabled: bool)
    ensures
        !enabled,
{
    false
}

/// The default timeout for reaching the agent, in seconds.
pub fn default_timeout_seconds() -> (seconds: i64)
    ensures
        seconds == 3,
{
    3
}

/// Stats are monitored by default.
pub fn default_stats_monitoring() -> (monitoring: bool)
    ensures
        monitoring,
{
    true
}

/// Unused images are pruned by default.
pub fn default_auto_prune() -> (prune: bool)
    ensures
        prune,
{
    true
}

/// Every kind of alert is sent by default.
pub fn default_send_alerts() -> (send: bool)
    ensures
        send,
{
    true
}

impl ServerConfig {
    /// The configuration of a server of which nothing has been set: disabled,
    /// at the default agent address, with the default timeout, without a
    /// passkey or headers of its own, and with monitoring, pruning and every
    /// alert switched on.
    pub open spec fn is_default(&self) -> bool {
        &&& self.address@ == "https://periphery:8120"@
        &&& self.access_client_id@.len() == 0
        &&& self.access_client_secret@.len() == 0
        &&& self.external_address@.len() == 0
        &&& self.region@.len() == 0
        &&& !self.enabled
        &&& self.timeout_seconds == 3
        &&& self.passkey@.len() == 0
        &&& self.request_headers@.len() == 0
        &&& self.ignore_mounts@.len() == 0
        &&& self.stats_monitoring
        &&& self.auto_prune
        &&& self.links@.len() == 0
        &&& self.send_unreachable_alerts
        &&& self.send_cpu_alerts
        &&& self.send_mem_alerts
        &&& self.send_disk_alerts
        &&& self.send_version_mismatch_alerts
    }

    /// `self` and `other` hold the same settings, field by field.
    pub open spec fn same_as(&self, other: &ServerConfig) -> bool {
        &&& self.address@ == other.address@
        &&& self.access_client_id@ == other.access_client_id@
        &&& self.access_client_secret@ == other.access_client_secret@
        &&& self.external_address@ == other.external_address@
        &&& self.region@ == other.region@
        &&& self.enabled == other.enabled
        &&& self.timeout_seconds == other.timeout_seconds
        &&& self.passkey@ == other.passkey@
        &&& self.request_headers@ == other.request_headers@
        &&& self.ignore_mounts@ == other.ignore_mounts@
        &&& self.stats_monitoring == other.stats_monitoring
        &&& self.auto_prune == other.auto_prune
        &&& self.links@ == other.links@
        &&& self.send_unreachable_alerts == other.send_unreachable_alerts
        &&& self.send_cpu_alerts == other.send_cpu_alerts
        &&& self.send_mem_alerts == other.send_mem_alerts
        &&& self.send_disk_alerts == other.send_disk_alerts
        &&& self.send_version_mismatch_alerts == other.send_version_mismatch_alerts
    }

    /// A copy of the configuration.
    pub fn copy(&self) -> (copy: ServerConfig)
        ensures
            copy.same_as(self),
    {
        ServerConfig {
            address: self.address.clone(),
            access_client_id: self.access_client_id.clone(),
            access_client_secret: self.access_client_secret.clone(),
            external_address: self.external_address.clone(),
            region: self.region.clone(),
            enabled: self.enabled,
            timeout_seconds: self.timeout_seconds,
            passkey: self.passkey.clone(),
            request_headers: copy_headers(&self.request_headers),
            ignore_mounts: copy_texts(&self.ignore_mounts),
            stats_monitoring: self.stats_monitoring,
            auto_prune: self.auto_prune,
            links: copy_texts(&self.links),
            send_unreachable_alerts: self.send_unreachable_alerts,
            send_cpu_alerts: self.send_cpu_alerts,
            send_mem_alerts: self.send_mem_alerts,
            send_disk_alerts: self.send_disk_alerts,
            send_version_mismatch_alerts: self.send_version_mismatch_alerts,
        }
    }
}

/// A copy of `texts`, text by text.
pub fn copy_texts(texts: &Vec<String>) -> (copy: Vec<String>)
    ensures
        copy@ == texts@,
{
    let mut copy: Vec<String> = Vec::new();
    let mut i: usize = 0;
    while i < texts.len()
        invariant
            i <= texts.len(),
            copy@ == texts@.take(i as int),
        decreases texts.len() - i,
    {
        copy.push(texts[i].clone());
        i += 1;
        assert(texts@.take(i as int) =~= texts@.take(i - 1).push(texts@[i - 1]));
    }
    assert(texts@.take(texts.len() as int) =~= texts@);
    copy
}

/// A copy of `headers`, header by header.
pub fn copy_headers(headers: &Vec<RequestHeader>) -> (copy: Vec<RequestHeader>)
    ensures
        copy@ == headers@,
{
    let mut copy: Vec<RequestHeader> = Vec::new();
    let mut i: usize = 0;
    while i < headers.len()
        invariant
            i <= headers.len(),
            copy@ == headers@.take(i as int),
        decreases headers.len() - i,
    {
        let header = &headers[i];
        copy.push(RequestHeader { name: header.name.clone(), value: header.value.clone() });
        i += 1;
        assert(headers@.take(i as int) =~= headers@.take(i - 1).push(headers@[i - 1]));
    }
    assert(headers@.take(headers.len() as int) =~= headers@);
    copy
}

impl Default for ServerConfig {
    fn default() -> (config: Self)
        ensures
            config.is_default(),
    {
        ServerConfig {
            address: default_address(),
            access_client_id: String::new(),
            access_client_secret: String::new(),
            external_address: String::new(),
            enabled: default_enabled(),
            timeout_seconds: default_timeout_seconds(),
            ignore_mounts: Vec::new(),
            stats_monitoring: default_stats_monitoring(),
            auto_prune: default_auto_prune(),
            links: Vec::new(),
            send_unreachable_alerts: default_send_alerts(),
            send_cpu_alerts: default_send_alerts(),
            send_mem_alerts: default_send_alerts(),
            send_disk_alerts: default_send_alerts(),
            send_version_mismatch_alerts: default_send_alerts(),
            region: String::new(),
            passkey: String::new(),
            request_headers: Vec::new(),
        }
    }
}

/// A managed server.
#[derive(Debug, Clone)]
pub struct Server {
    /// The store-assigned id.
    pub id: String,
    /// The display name.
    pub name: String,
    /// The configuration.
    pub config: ServerConfig,
}

/// The state of a server.
#[derive(Debug, Clone, Copy, PartialEq, Eq, Hash, PartialOrd, Ord, Structural)]
pub enum ServerState {
    /// The health check passes.
    Okay,
    /// The server cannot be reached.
    NotOk,
    /// The server is disabled.
    Disabled,
}

impl Default for ServerState {
    fn default() -> (state: Self)
        ensures
            state == ServerState::NotOk,
    {
        ServerState::NotOk
    }
}

impl ServerState {
    /// The name of the state on the wire, in kebab case.
    pub open spec fn wire_name(self) -> Seq<char> {
        match self {
            ServerState::Okay => "ok"@,
            ServerState::NotOk => "not-ok"@,
            ServerState::Disabled => "disabled"@,
        }
    }

    /// The name of the state on the wire, in kebab case.
    pub fn to_string(&self) -> (name: String)
        ensures
            name@ == self.wire_name(),
    {
        match self {
            ServerState::Okay => "ok".to_owned(),
            ServerState::NotOk => "not-ok".to_owned(),
            ServerState::Disabled => "disabled".to_owned(),
        }
    }
}

/// What a list of servers shows of each.
#[derive(Debug, Clone)]
pub struct ServerListItemInfo {
    /// The state of the server.
    pub state: ServerState,
    /// The region of the server.
    pub region: String,
    /// The address of the server.
    pub address: String,
    /// The Cloudflare access client id to connect with. Empty for none.
    pub access_client_id: String,
    /// The Cloudflare access client secret to connect with. Empty for none.
    pub access_client_secret: String,
    /// The address to use in links to the server.
    pub external_address: String,
    /// The version of the agent on the server.
    pub version: String,
    /// Whether the server alerts when it cannot be reached.
    pub send_unreachable_alerts: bool,
    /// Whether the server alerts on the CPU status.
    pub send_cpu_alerts: bool,
    /// Whether the server alerts on the memory status.
    pub send_mem_alerts: bool,
    /// Whether the server alerts on the disk status.
    pub send_disk_alerts: bool,
    /// Whether the server alerts on a version mismatch.
    pub send_version_mismatch_alerts: bool,
    /// Whether terminals are disabled for the server.
    pub terminals_disabled: bool,
    /// Whether container exec is disabled for the server.
    pub container_exec_disabled: bool,
}

/// The health of one part of a server.
#[derive(Debug, Clone, Copy, Default)]
pub struct ServerHealthState {
    /// How severe the condition of the part is.
    pub level: SeverityLevel,
    /// Whether the health is good enough to close an open alert.
    pub should_close_alert: bool,
}

/// The health of a server, part by part.
#[derive(Debug, Clone, Default)]
pub struct ServerHealth {
    /// The health of the CPU.
    pub cpu: ServerHealthState,
    /// The health of the memory.
    pub mem: ServerHealthState,
    /// The health of each disk, by its mount path.
    pub disks: HashMap<PathBuf, ServerHealthState>,
}

/// The actions pending on a server.
#[derive(Debug, Clone, Copy, Default)]
pub struct ServerActionState {
    /// The server is pruning networks.
    pub pruning_networks: bool,
    /// The server is pruning containers.
    pub pruning_containers: bool,
    /// The server is pruning images.
    pub pruning_images: bool,
    /// The server is pruning volumes.
    pub pruning_volumes: bool,
    /// The server is pruning docker builders.
    pub pruning_builders: bool,
    /// The server is pruning the buildx cache.
    pub pruning_buildx: bool,
    /// The server is pruning the system.
    pub pruning_system: bool,
    /// The server is starting containers.
    pub starting_containers: bool,
    /// The server is restarting containers.
    pub restarting_containers: bool,
    /// The server is pausing containers.
    pub pausing_containers: bool,
    /// The server is unpausing containers.
    pub unpausing_containers: bool,
    /// The server is stopping containers.
    pub stopping_containers: bool,
}

/// The filters of a query that only servers have: none.
#[derive(Debug, Clone, Default)]
pub struct ServerQuerySpecifics {}

} // verus!
