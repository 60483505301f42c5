//! Stacks, builds and repos, as far as credential resolution reads and writes
//! them: each carries the git provider and account it is cloned with, and the
//! transport flag that a lookup fills in.

use vstd::prelude::*;

verus! {

/// The git settings of a stack.
#[derive(Debug, Clone)]
pub struct StackConfig {
    /// The git provider domain. Empty where the stack has no git source.
    pub git_provider: String,
    /// The account used to reach the provider. Empty for public access.
    pub git_account: String,
    /// Whether the provider is reached over https rather than http.
    pub git_https: bool,
}

/// A stack resource.
#[derive(Debug, Clone)]
pub struct Stack {
    /// The store-assigned id.
    pub id: String,
    /// The display name.
    pub name: String,
    /// The configuration.
    pub config: StackConfig,
}

/// The git settings of a build.
#[derive(Debug, Clone)]
pub struct BuildConfig {
    /// The git provider domain. Empty where the build has no git source.
    pub git_provider: String,
    /// The account used to reach the provider. Empty for public access.
    pub git_account: String,
    /// Whether the provider is reached over https rather than http.
    pub git_https: bool,
}

/// A build resource.
#[derive(Debug, Clone)]
pub struct Build {
    /// The store-assigned id.
    pub id: String,
    /// The display name.
    pub name: String,
    /// The configuration.
    pub config: BuildConfig,
}

/// The git settings of a repo.
#[derive(Debug, Clone)]
pub struct RepoConfig {
    /// The git provider domain. Empty where the repo has no git source.
    pub git_provider: String,
    /// The account used to reach the provider. Empty for public access.
    pub git_account: String,
    /// Whether the provider is reached over https rather than http.
    pub git_https: bool,
}

/// A repo resource.
#[derive(Debug, Clone)]
pub struct Repo {
    /// The store-assigned id.
    pub id: String,
    /// The display name.
    pub name: String,
    /// The configuration.
    pub config: RepoConfig,
}

} // verus!
