//! The errors that the helpers surface.

use vstd::prelude::*;

verus! {

/// The store collection that a credential query goes to.
#[derive(Debug, Clone, Copy, PartialEq, Eq, Structural)]
pub enum StoreQuery {
    /// The `git_accounts` collection.
    GitAccounts,
    /// The `registry_accounts` collection.
    RegistryAccounts,
}

/// What was being asked of `query` when the store failed.
pub open spec fn query_context(query: StoreQuery) -> Seq<char> {
    match query {
        StoreQuery::GitAccounts => "failed to query db for git provider accounts"@,
        StoreQuery::RegistryAccounts => "failed to query db for docker registry accounts"@,
    }
}

/// The store answered a query with an error.
#[derive(Debug, Clone)]
pub struct StoreUnavailable {
    /// The query that failed.
    pub query: StoreQuery,
    /// The store's own account of the failure.
    pub cause: String,
}

impl StoreUnavailable {
    /// The text of the error: what was being asked, then the cause.
    pub open spec fn spec_message(&self) -> Seq<char> {
        query_context(self.query) + ": "@ + self.cause@
    }

    /// The text of the error: what was being asked, then the cause.
    pub fn message(&self) -> (text: String)
        ensures
            text@ == self.spec_message(),
    {
        let mut text = match self.query {
            StoreQuery::GitAccounts => "failed to query db for git provider accounts".to_owned(),
            StoreQuery::RegistryAccounts => {
                "failed to query db for docker registry accounts".to_owned()
            },
        };
        text.append(": ");
        text.append(self.cause.as_str());
        text
    }
}

/// A git token could not be resolved for a resource because the store failed.
#[derive(Debug, Clone)]
pub struct GitTokenUnavailable {
    /// The git provider domain that was asked for.
    pub provider: String,
    /// The account username that was asked for.
    pub account: String,
    /// The store failure underneath.
    pub source: StoreUnavailable,
}

impl GitTokenUnavailable {
    /// The text of the error: the provider and account, then the store
    /// failure.
    pub open spec fn spec_message(&self) -> Seq<char> {
        "Failed to get git token. Stopping run. | "@ + self.provider@ + " | "@ + self.account@
            + ": "@ + self.source.spec_message()
    }

    /// The text of the error: the provider and account, then the store
    /// failure.
    pub fn message(&self) -> (text: String)
        ensures
            text@ == self.spec_message(),
    {
        let mut text = "Failed to get git token. Stopping run. | ".to_owned();
        text.append(self.provider.as_str());
        text.append(" | ");
        text.append(self.account.as_str());
        text.append(": ");
        let source = self.source.message();
        text.append(source.as_str());
        text
    }
}

/// A client was asked for a server that is administratively disabled. The
/// refusal is a matter of policy: asking again does not help.
#[derive(Debug, Clone, Copy, PartialEq, Eq, Structural)]
pub struct ServerDisabled;

impl ServerDisabled {
    /// The text of the error.
    pub fn message(&self) -> (text: String)
        ensures
            text@ == "server not enabled"@,
    {
        "server not enabled".to_owned()
    }
}

} // verus!
