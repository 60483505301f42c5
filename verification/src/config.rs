//! The static configuration of the control plane.

use vstd::prelude::*;

use crate::entities::provider::{DockerRegistry, GitProvider};

verus! {

/// The process-wide configuration snapshot. It is filled once at start-up and
/// only read afterwards.
#[derive(Debug, Clone)]
pub struct CoreConfig {
    /// The passkey shared with every agent that has none of its own.
    pub passkey: String,
    /// The configured git providers, in configuration order.
    pub git_providers: Vec<GitProvider>,
    /// The configured container registries, in configuration order.
    pub docker_registries: Vec<DockerRegistry>,
}

} // verus!
