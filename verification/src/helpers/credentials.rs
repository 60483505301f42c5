//! Resolution of git-provider and container-registry credentials.
//!
//! A credential is looked up in two tiers: the store first, the static
//! configuration second. The store is only reached by the caller, so each
//! lookup comes as a pair: one function says which query, if any, must be put
//! to the store, the other resolves the credential from what the store
//! answered.

use vstd::prelude::*;
use vstd::string::StringExecFns;

use crate::entities::lookup::{
    find_first, first_with_key, lemma_first_with_key, lemma_first_with_key_is,
};
use crate::entities::provider::{
    DockerRegistry, GitAccount, GitProvider, ProviderAccount, RegistryAccount,
};
use crate::entities::resource::{Build, Repo, Stack};
use crate::error::{GitTokenUnavailable, StoreQuery, StoreUnavailable};

verus! {

/// A `find_one` query for the row of `(domain, username)` in one collection
/// of the store.
#[derive(Debug, Clone)]
pub struct AccountQuery {
    /// The collection to query.
    pub collection: StoreQuery,
    /// The provider domain that the row must have.
    pub domain: String,
    /// The account username that the row must have.
    pub username: String,
}

/// A resolved git credential.
#[derive(Debug, Clone)]
pub struct GitToken {
    /// The secret, or `None` where no account is known.
    pub token: Option<String>,
    /// The transport hint that was found on the way: `Some(true)` for https,
    /// `Some(false)` for http, `None` where nothing gave a hint.
    pub https: Option<bool>,
}

/// The mathematical content of a [`GitToken`].
pub struct GitTokenView {
    /// The characters of the secret, if there is one.
    pub token: Option<Seq<char>>,
    /// The transport hint, if there is one.
    pub https: Option<bool>,
}

impl View for GitToken {
    type V = GitTokenView;

    open spec fn view(&self) -> GitTokenView {
        GitTokenView { token: text_of(self.token), https: self.https }
    }
}

/// The characters of an optional text.
pub open spec fn text_of(text: Option<String>) -> Option<Seq<char>> {
    match text {
        Some(t) => Some(t@),
        None => None,
    }
}

/// No credential was asked for: a lookup with an empty domain or an empty
/// username resolves to nothing and must not reach the store.
pub open spec fn nothing_requested(domain: Seq<char>, username: Seq<char>) -> bool {
    domain.len() == 0 || username.len() == 0
}

/// The token that `accounts` hold for `username`: that of the first account
/// of that name.
pub open spec fn account_token(accounts: Seq<ProviderAccount>, username: Seq<char>) -> Option<
    Seq<char>,
> {
    match first_with_key(accounts, username) {
        Some(k) => Some(accounts[k].token@),
        None => None,
    }
}

/// What the static configuration yields for a git credential: the first
/// provider of the domain gives the transport hint, whether or not it holds
/// the account, and its first account of the username gives the token.
pub open spec fn git_fallback(
    providers: Seq<GitProvider>,
    domain: Seq<char>,
    username: Seq<char>,
) -> GitTokenView {
    match first_with_key(providers, domain) {
        Some(i) => GitTokenView {
            token: account_token(providers[i].accounts@, username),
            https: Some(providers[i].https),
        },
        None => GitTokenView { token: None, https: None },
    }
}

/// The outcome of resolving a git credential, given what the store answered:
/// the credential, or the store's account of its failure.
///
/// Where nothing was requested the outcome is empty. Else a store failure is
/// the outcome; else a row of the store decides alone; else the static
/// configuration decides.
pub open spec fn git_outcome(
    domain: Seq<char>,
    username: Seq<char>,
    stored: Result<Option<GitAccount>, String>,
    providers: Seq<GitProvider>,
) -> Result<GitTokenView, Seq<char>> {
    if nothing_requested(domain, username) {
        Ok(GitTokenView { token: None, https: None })
    } else {
        match stored {
            Err(cause) => Err(cause@),
            Ok(Some(row)) => Ok(GitTokenView { token: Some(row.token@), https: Some(row.https) }),
            Ok(None) => Ok(git_fallback(providers, domain, username)),
        }
    }
}

/// What the static configuration yields for a registry credential: the token
/// of the first account of the username under the first registry of the
/// domain.
pub open spec fn registry_fallback(
    registries: Seq<DockerRegistry>,
    domain: Seq<char>,
    username: Seq<char>,
) -> Option<Seq<char>> {
    match first_with_key(registries, domain) {
        Some(i) => account_token(registries[i].accounts@, username),
        None => None,
    }
}

/// The outcome of resolving a registry credential, given what the store
/// answered: the token, if any, or the store's account of its failure.
///
/// The tiers are those of [`git_outcome`].
pub open spec fn registry_outcome(
    domain: Seq<char>,
    username: Seq<char>,
    stored: Result<Option<RegistryAccount>, String>,
    registries: Seq<DockerRegistry>,
) -> Result<Option<Seq<char>>, Seq<char>> {
    if nothing_requested(domain, username) {
        Ok(None)
    } else {
        match stored {
            Err(cause) => Err(cause@),
            Ok(Some(row)) => Ok(Some(row.token@)),
            Ok(None) => Ok(registry_fallback(registries, domain, username)),
        }
    }
}

/// The token of the first of `accounts` named `username`.
fn token_of_account(accounts: &Vec<ProviderAccount>, username: &str) -> (token: Option<String>)
    ensures
        text_of(token) == account_token(accounts@, username@),
{
    match find_first(accounts, username) {
        Some(k) => Some(accounts[k].token.clone()),
        None => None,
    }
}

/// The query that a credential lookup must put to `collection`, or `None`
/// where nothing was requested.
fn account_query(collection: StoreQuery, domain: &str, username: &str) -> (query: Option<
    AccountQuery,
>)
    ensures
        nothing_requested(domain@, username@) <==> query is None,
        query matches Some(q) ==> (q.collection == collection && q.domain@ == domain@
            && q.username@ == username@),
{
    if domain.is_empty() || username.is_empty() {
        None
    } else {
        Some(
            AccountQuery {
                collection,
                domain: String::from_str(domain),
                username: String::from_str(username),
            },
        )
    }
}

/// The store query that resolving a git credential starts with.
///
/// Returns `None` exactly where the domain or the username is empty: then the
/// store is not to be touched, and [`git_token`] resolves to nothing whatever
/// it is handed. Otherwise the query asks `git_accounts` for the row of
/// `(provider_domain, account_username)`.
pub fn git_token_query(provider_domain: &str, account_username: &str) -> (query: Option<
    AccountQuery,
>)
    ensures
        nothing_requested(provider_domain@, account_username@) <==> query is None,
        query matches Some(q) ==> (q.collection == StoreQuery::GitAccounts && q.domain@
            == provider_domain@ && q.username@ == account_username@),
{
    account_query(StoreQuery::GitAccounts, provider_domain, account_username)
}

/// Resolves a git credential from what the store answered.
///
/// `stored` is the answer to [`git_token_query`]: the row, `Ok(None)` where
/// there is none, or the store's error. The store wins over `providers`, the
/// static configuration; a store failure is surfaced and never falls through
/// to the configuration. Not finding an account is no error.
pub fn git_token(
    provider_domain: &str,
    account_username: &str,
    stored: Result<Option<GitAccount>, String>,
    providers: &Vec<GitProvider>,
) -> (resolved: Result<GitToken, StoreUnavailable>)
    ensures
        match git_outcome(provider_domain@, account_username@, stored, providers@) {
            Ok(view) => (resolved matches Ok(found) && found@ == view),
            Err(cause) => (resolved matches Err(failure) && failure.query
                == StoreQuery::GitAccounts && failure.cause@ == cause),
        },
{
    if provider_domain.is_empty() || account_username.is_empty() {
        return Ok(GitToken { token: None, https: None });
    }
    match stored {
        Err(cause) => Err(StoreUnavailable { query: StoreQuery::GitAccounts, cause }),
        Ok(Some(row)) => Ok(GitToken { token: Some(row.token), https: Some(row.https) }),
        Ok(None) => match find_first(providers, provider_domain) {
            Some(i) => {
                let provider = &providers[i];
                Ok(
                    GitToken {
                        token: token_of_account(&provider.accounts, account_username),
                        https: Some(provider.https),
                    },
                )
            },
            None => Ok(GitToken { token: None, https: None }),
        },
    }
}

/// The store query that resolving a registry credential starts with.
///
/// Returns `None` exactly where the domain or the username is empty: then the
/// store is not to be touched, and [`registry_token`] resolves to nothing
/// whatever it is handed. Otherwise the query asks `registry_accounts` for
/// the row of `(provider_domain, account_username)`.
pub fn registry_token_query(provider_domain: &str, account_username: &str) -> (query: Option<
    AccountQuery,
>)
    ensures
        nothing_requested(provider_domain@, account_username@) <==> query is None,
        query matches Some(q) ==> (q.collection == StoreQuery::RegistryAccounts && q.domain@
            == provider_domain@ && q.username@ == account_username@),
{
    account_query(StoreQuery::RegistryAccounts, provider_domain, account_username)
}

/// Resolves a registry credential from what the store answered.
///
/// `stored` is the answer to [`registry_token_query`]. The store wins over
/// `registries`, the static configuration; a store failure is surfaced and
/// never falls through to the configuration. Not finding an account is no
/// error.
pub fn registry_token(
    provider_domain: &str,
    account_username: &str,
    stored: Result<Option<RegistryAccount>, String>,
    registries: &Vec<DockerRegistry>,
) -> (resolved: Result<Option<String>, StoreUnavailable>)
    ensures
        match registry_outcome(provider_domain@, account_username@, stored, registries@) {
            Ok(view) => (resolved matches Ok(token) && text_of(token) == view),
            Err(cause) => (resolved matches Err(failure) && failure.query
                == StoreQuery::RegistryAccounts && failure.cause@ == cause),
        },
{
    if provider_domain.is_empty() || account_username.is_empty() {
        return Ok(None);
    }
    match stored {
        Err(cause) => Err(StoreUnavailable { query: StoreQuery::RegistryAccounts, cause }),
        Ok(Some(row)) => Ok(Some(row.token)),
        Ok(None) => match find_first(registries, provider_domain) {
            Some(i) => Ok(token_of_account(&registries[i].accounts, account_username)),
            None => Ok(None),
        },
    }
}

/// The transport flag of a resource after a lookup: the hint where one was
/// found, else what it was.
pub open spec fn hinted(before: bool, https: Option<bool>) -> bool {
    match https {
        Some(hint) => hint,
        None => before,
    }
}

/// `query` is what a git lookup of `(domain, username)` starts with: nothing
/// where nothing was requested, else the query for that row of `git_accounts`.
pub open spec fn query_for(
    query: Option<AccountQuery>,
    domain: Seq<char>,
    username: Seq<char>,
) -> bool {
    &&& nothing_requested(domain, username) <==> query is None
    &&& query matches Some(q) ==> (q.collection == StoreQuery::GitAccounts && q.domain@ == domain
        && q.username@ == username)
}

/// `token` and `https_after` are what resolving the git credential of a
/// resource gives, for the provider, account and transport flag that its
/// configuration held.
///
/// On success the token is that of [`git_outcome`] and the flag takes the
/// hint, if there was one. On a store failure the error names the provider
/// and the account, and the flag is left as it was.
pub open spec fn resolved_for(
    provider: Seq<char>,
    account: Seq<char>,
    https_before: bool,
    stored: Result<Option<GitAccount>, String>,
    providers: Seq<GitProvider>,
    token: Result<Option<String>, GitTokenUnavailable>,
    https_after: bool,
) -> bool {
    match git_outcome(provider, account, stored, providers) {
        Ok(found) => {
            &&& token matches Ok(secret)
            &&& text_of(secret) == found.token
            &&& https_after == hinted(https_before, found.https)
        },
        Err(cause) => {
            &&& token matches Err(failure)
            &&& failure.provider@ == provider
            &&& failure.account@ == account
            &&& failure.source.query == StoreQuery::GitAccounts
            &&& failure.source.cause@ == cause
            &&& https_after == https_before
        },
    }
}

/// Resolves a git credential for the provider and account of one resource.
/// Returns the token with the transport flag that the resource is to have.
fn resolve_for(
    provider: &str,
    account: &str,
    https_before: bool,
    stored: Result<Option<GitAccount>, String>,
    providers: &Vec<GitProvider>,
) -> (resolved: (Result<Option<String>, GitTokenUnavailable>, bool))
    ensures
        resolved_for(
            provider@,
            account@,
            https_before,
            stored,
            providers@,
            resolved.0,
            resolved.1,
        ),
{
    match git_token(provider, account, stored, providers) {
        Ok(found) => {
            let https_after = match found.https {
                Some(hint) => hint,
                None => https_before,
            };
            (Ok(found.token), https_after)
        },
        Err(source) => (
            Err(
                GitTokenUnavailable {
                    provider: String::from_str(provider),
                    account: String::from_str(account),
                    source,
                },
            ),
            https_before,
        ),
    }
}

/// A lookup with an empty domain or an empty username resolves to no secret
/// and no transport hint, whatever the store and the configuration hold.
pub proof fn lemma_empty_input_resolves_nothing(
    domain: Seq<char>,
    username: Seq<char>,
    stored: Result<Option<GitAccount>, String>,
    providers: Seq<GitProvider>,
)
    requires
        domain.len() == 0 || username.len() == 0,
    ensures
        git_outcome(domain, username, stored, providers) == Ok::<GitTokenView, Seq<char>>(
            GitTokenView { token: None, https: None },
        ),
{
}

/// The store wins: a row of the store gives the token and the transport hint,
/// whatever the static configuration holds for the same domain and username.
pub proof fn lemma_store_wins(
    domain: Seq<char>,
    username: Seq<char>,
    row: GitAccount,
    providers: Seq<GitProvider>,
)
    requires
        domain.len() > 0,
        username.len() > 0,
    ensures
        git_outcome(domain, username, Ok(Some(row)), providers) == Ok::<GitTokenView, Seq<char>>(
            GitTokenView { token: Some(row.token@), https: Some(row.https) },
        ),
{
}

/// Static fallback: where the store has no row, the first configured provider
/// of the domain gives its transport hint whether or not it holds the
/// account, and the token is that of its first account of the username, or
/// none where it has no such account.
pub proof fn lemma_static_fallback(
    domain: Seq<char>,
    username: Seq<char>,
    providers: Seq<GitProvider>,
    i: int,
)
    requires
        domain.len() > 0,
        username.len() > 0,
        0 <= i < providers.len(),
        providers[i].domain@ == domain,
        forall|j: int| 0 <= j < i ==> providers[j].domain@ != domain,
    ensures
        git_outcome(domain, username, Ok(None), providers) matches Ok(found) && found.https
            == Some(providers[i].https) && found.token == account_token(
            providers[i].accounts@,
            username,
        ),
        forall|k: int|
            0 <= k < providers[i].accounts.len() && providers[i].accounts[k].username@ == username
                && (forall|l: int| 0 <= l < k ==> providers[i].accounts[l].username@ != username)
                ==> account_token(providers[i].accounts@, username) == Some(
                providers[i].accounts[k].token@,
            ),
        (forall|k: int|
            0 <= k < providers[i].accounts.len() ==> providers[i].accounts[k].username@ != username)
            ==> account_token(providers[i].accounts@, username) is None,
{
    lemma_first_with_key_is(providers, domain, i);
    let accounts = providers[i].accounts@;
    lemma_first_with_key(accounts, username);
    assert forall|k: int|
        0 <= k < accounts.len() && accounts[k].username@ == username && (forall|l: int|
            0 <= l < k ==> accounts[l].username@ != username) implies account_token(
        accounts,
        username,
    ) == Some(accounts[k].token@) by {
        lemma_first_with_key_is(accounts, username, k);
    }
}

/// Where the store has no row and no configured provider has the domain, the
/// lookup resolves to no secret and no transport hint.
pub proof fn lemma_unknown_provider(
    domain: Seq<char>,
    username: Seq<char>,
    providers: Seq<GitProvider>,
)
    requires
        domain.len() > 0,
        username.len() > 0,
        forall|j: int| 0 <= j < providers.len() ==> providers[j].domain@ != domain,
    ensures
        git_outcome(domain, username, Ok(None), providers) == Ok::<GitTokenView, Seq<char>>(
            GitTokenView { token: None, https: None },
        ),
{
    lemma_first_with_key(providers, domain);
}

/// A store failure is the outcome of the lookup, with the store's cause: the
/// static configuration is not consulted, and no transport hint is given.
pub proof fn lemma_store_failure_propagates(
    domain: Seq<char>,
    username: Seq<char>,
    cause: String,
    providers: Seq<GitProvider>,
)
    requires
        domain.len() > 0,
        username.len() > 0,
    ensures
        git_outcome(domain, username, Err(cause), providers) == Err::<GitTokenView, Seq<char>>(
            cause@,
        ),
{
}

/// The store query that resolving the git credential of a stack starts with.
///
/// Where the stack is linked to a repo, the repo's provider and account are
/// asked for, else the stack's own.
pub fn stack_git_token_query(stack: &Stack, repo: Option<&Repo>) -> (query: Option<AccountQuery>)
    ensures
        match repo {
            Some(linked) => query_for(
                query,
                linked.config.git_provider@,
                linked.config.git_account@,
            ),
            None => query_for(query, stack.config.git_provider@, stack.config.git_account@),
        },
{
    match repo {
        Some(linked) => git_token_query(
            linked.config.git_provider.as_str(),
            linked.config.git_account.as_str(),
        ),
        None => git_token_query(
            stack.config.git_provider.as_str(),
            stack.config.git_account.as_str(),
        ),
    }
}

/// Resolves the git credential of a stack from what the store answered.
///
/// Where the stack is linked to a repo, the repo's provider and account are
/// resolved and the transport hint is written to the repo, the stack staying
/// as it was; else the stack's own are resolved and the hint is written to
/// the stack. Nothing but the transport flag is written.
pub fn stack_git_token(
    stack: &mut Stack,
    repo: Option<&mut Repo>,
    stored: Result<Option<GitAccount>, String>,
    providers: &Vec<GitProvider>,
) -> (token: Result<Option<String>, GitTokenUnavailable>)
    ensures
        match repo {
            Some(linked) => {
                &&& *final(stack) == *old(stack)
                &&& final(linked).id == linked.id
                &&& final(linked).name == linked.name
                &&& final(linked).config.git_provider == linked.config.git_provider
                &&& final(linked).config.git_account == linked.config.git_account
                &&& resolved_for(
                    linked.config.git_provider@,
                    linked.config.git_account@,
                    linked.config.git_https,
                    stored,
                    providers@,
                    token,
                    final(linked).config.git_https,
                )
            },
            None => {
                &&& final(stack).id == old(stack).id
                &&& final(stack).name == old(stack).name
                &&& final(stack).config.git_provider == old(stack).config.git_provider
                &&& final(stack).config.git_account == old(stack).config.git_account
                &&& resolved_for(
                    old(stack).config.git_provider@,
                    old(stack).config.git_account@,
                    old(stack).config.git_https,
                    stored,
                    providers@,
                    token,
                    final(stack).config.git_https,
                )
            },
        },
{
    match repo {
        Some(linked) => {
            let (token, https) = resolve_for(
                linked.config.git_provider.as_str(),
                linked.config.git_account.as_str(),
                linked.config.git_https,
                stored,
                providers,
            );
            linked.config.git_https = https;
            token
        },
        None => {
            let (token, https) = resolve_for(
                stack.config.git_provider.as_str(),
                stack.config.git_account.as_str(),
                stack.config.git_https,
                stored,
                providers,
            );
            stack.config.git_https = https;
            token
        },
    }
}

/// The store query that resolving the git credential of a build starts with.
///
/// Where the build is linked to a repo, the repo's provider and account are
/// asked for, else the build's own.
pub fn build_git_token_query(build: &Build, repo: Option<&Repo>) -> (query: Option<AccountQuery>)
    ensures
        match repo {
            Some(linked) => query_for(
                query,
                linked.config.git_provider@,
                linked.config.git_account@,
            ),
            None => query_for(query, build.config.git_provider@, build.config.git_account@),
        },
{
    match repo {
        Some(linked) => git_token_query(
            linked.config.git_provider.as_str(),
            linked.config.git_account.as_str(),
        ),
        None => git_token_query(
            build.config.git_provider.as_str(),
            build.config.git_account.as_str(),
        ),
    }
}

/// Resolves the git credential of a build from what the store answered.
///
/// Where the build is linked to a repo, the repo's provider and account are
/// resolved and the transport hint is written to the repo, the build staying
/// as it was; else the build's own are resolved and the hint is written to
/// the build. Nothing but the transport flag is written.
pub fn build_git_token(
    build: &mut Build,
    repo: Option<&mut Repo>,
    stored: Result<Option<GitAccount>, String>,
    providers: &Vec<GitProvider>,
) -> (token: Result<Option<String>, GitTokenUnavailable>)
    ensures
        match repo {
            Some(linked) => {
                &&& *final(build) == *old(build)
                &&& final(linked).id == linked.id
                &&& final(linked).name == linked.name
                &&& final(linked).config.git_provider == linked.config.git_provider
                &&& final(linked).config.git_account == linked.config.git_account
                &&& resolved_for(
                    linked.config.git_provider@,
                    linked.config.git_account@,
                    linked.config.git_https,
                    stored,
                    providers@,
                    token,
                    final(linked).config.git_https,
                )
            },
            None => {
                &&& final(build).id == old(build).id
                &&& final(build).name == old(build).name
                &&& final(build).config.git_provider == old(build).config.git_provider
                &&& final(build).config.git_account == old(build).config.git_account
                &&& resolved_for(
                    old(build).config.git_provider@,
                    old(build).config.git_account@,
                    old(build).config.git_https,
                    stored,
                    providers@,
                    token,
                    final(build).config.git_https,
                )
            },
        },
{
    match repo {
        Some(linked) => {
            let (token, https) = resolve_for(
                linked.config.git_provider.as_str(),
                linked.config.git_account.as_str(),
                linked.config.git_https,
                stored,
                providers,
            );
            linked.config.git_https = https;
            token
        },
        None => {
            let (token, https) = resolve_for(
                build.config.git_provider.as_str(),
                build.config.git_account.as_str(),
                build.config.git_https,
                stored,
                providers,
            );
            build.config.git_https = https;
            token
        },
    }
}

} // verus!
