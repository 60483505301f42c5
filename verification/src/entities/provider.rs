//! Git-provider and container-registry accounts, as rows of the store and as
//! entries of the static configuration.

use vstd::prelude::*;

use crate::entities::lookup::Keyed;

verus! {

/// A git account row of the store, keyed by `(domain, username)`.
#[derive(Debug, Clone)]
pub struct GitAccount {
    /// The git provider domain, such as `github.com`.
    pub domain: String,
    /// The account username.
    pub username: String,
    /// The plaintext access token of the account.
    pub token: String,
    /// Whether the provider is reached over https rather than http.
    pub https: bool,
}

/// A container-registry account row of the store, keyed by
/// `(domain, username)`.
#[derive(Debug, Clone)]
pub struct RegistryAccount {
    /// The registry domain, such as `docker.io`.
    pub domain: String,
    /// The account username.
    pub username: String,
    /// The plaintext access token of the account.
    pub token: String,
}

/// One account of a statically configured provider.
#[derive(Debug, Clone)]
pub struct ProviderAccount {
    /// The account username.
    pub username: String,
    /// The plaintext access token of the account.
    pub token: String,
}

/// A statically configured git provider.
#[derive(Debug, Clone)]
pub struct GitProvider {
    /// The git provider domain.
    pub domain: String,
    /// Whether the provider is reached over https rather than http.
    pub https: bool,
    /// The accounts configured for the provider, in configuration order.
    pub accounts: Vec<ProviderAccount>,
}

/// A statically configured container registry.
#[derive(Debug, Clone)]
pub struct DockerRegistry {
    /// The registry domain.
    pub domain: String,
    /// The accounts configured for the registry, in configuration order.
    pub accounts: Vec<ProviderAccount>,
}

impl Keyed for ProviderAccount {
    open spec fn key(&self) -> Seq<char> {
        self.username@
    }

    fn key_text(&self) -> (text: &str) {
        self.username.as_str()
    }
}

impl Keyed for GitProvider {
    open spec fn key(&self) -> Seq<char> {
        self.domain@
    }

    fn key_text(&self) -> (text: &str) {
        self.domain.as_str()
    }
}

impl Keyed for DockerRegistry {
    open spec fn key(&self) -> Seq<char> {
        self.domain@
    }

    fn key_text(&self) -> (text: &str) {
        self.domain.as_str()
    }
}

} // verus!
