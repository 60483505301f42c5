use komodo_core::entities::provider::{
    DockerRegistry, GitAccount, GitProvider, ProviderAccount, RegistryAccount,
};
use komodo_core::entities::resource::{Build, BuildConfig, Repo, RepoConfig, Stack, StackConfig};
use komodo_core::error::{GitTokenUnavailable, StoreQuery, StoreUnavailable};
use komodo_core::helpers::credentials::{
    build_git_token, build_git_token_query, git_token, git_token_query, registry_token,
    registry_token_query, stack_git_token, stack_git_token_query,
};

fn account(username: &str, token: &str) -> ProviderAccount {
    ProviderAccount { username: username.to_string(), token: token.to_string() }
}

fn provider(domain: &str, https: bool, accounts: Vec<ProviderAccount>) -> GitProvider {
    GitProvider { domain: domain.to_string(), https, accounts }
}

fn registry(domain: &str, accounts: Vec<ProviderAccount>) -> DockerRegistry {
    DockerRegistry { domain: domain.to_string(), accounts }
}

fn git_row(domain: &str, username: &str, token: &str, https: bool) -> GitAccount {
    GitAccount {
        domain: domain.to_string(),
        username: username.to_string(),
        token: token.to_string(),
        https,
    }
}

fn registry_row(domain: &str, username: &str, token: &str) -> RegistryAccount {
    RegistryAccount {
        domain: domain.to_string(),
        username: username.to_string(),
        token: token.to_string(),
    }
}

fn stack(provider: &str, account: &str, https: bool) -> Stack {
    Stack {
        id: "stack-id".to_string(),
        name: "stack".to_string(),
        config: StackConfig {
            git_provider: provider.to_string(),
            git_account: account.to_string(),
            git_https: https,
        },
    }
}

fn build(provider: &str, account: &str, https: bool) -> Build {
    Build {
        id: "build-id".to_string(),
        name: "build".to_string(),
        config: BuildConfig {
            git_provider: provider.to_string(),
            git_account: account.to_string(),
            git_https: https,
        },
    }
}

fn repo(provider: &str, account: &str, https: bool) -> Repo {
    Repo {
        id: "repo-id".to_string(),
        name: "repo".to_string(),
        config: RepoConfig {
            git_provider: provider.to_string(),
            git_account: account.to_string(),
            git_https: https,
        },
    }
}

#[test]
fn empty_input_asks_nothing_of_the_store() {
    assert!(git_token_query("", "alice").is_none());
    assert!(git_token_query("github.com", "").is_none());
    assert!(git_token_query("", "").is_none());
    assert!(registry_token_query("", "alice").is_none());
    assert!(registry_token_query("docker.io", "").is_none());
}

#[test]
fn query_names_collection_domain_and_username() {
    let query = git_token_query("github.com", "alice").unwrap();
    assert_eq!(query.collection, StoreQuery::GitAccounts);
    assert_eq!(query.domain, "github.com");
    assert_eq!(query.username, "alice");
    let query = registry_token_query("docker.io", "bob").unwrap();
    assert_eq!(query.collection, StoreQuery::RegistryAccounts);
    assert_eq!(query.domain, "docker.io");
    assert_eq!(query.username, "bob");
}

#[test]
fn spaces_are_not_empty_input() {
    assert!(git_token_query(" ", " ").is_some());
}

#[test]
fn empty_input_resolves_to_nothing() {
    let providers = vec![provider("", true, vec![account("", "tok_empty"), account("alice", "tok")])];
    let row = git_row("", "alice", "tok_db", true);
    let found = git_token("", "alice", Ok(Some(row)), &providers).unwrap();
    assert_eq!(found.token, None);
    assert_eq!(found.https, None);
    let found = git_token("github.com", "", Ok(None), &providers).unwrap();
    assert_eq!(found.token, None);
    assert_eq!(found.https, None);
    let found = git_token("", "", Err("down".to_string()), &providers).unwrap();
    assert_eq!(found.token, None);
    assert_eq!(found.https, None);
}

#[test]
fn store_row_gives_token_and_hint() {
    let row = git_row("github.com", "alice", "tok_db", true);
    let found = git_token("github.com", "alice", Ok(Some(row)), &Vec::new()).unwrap();
    assert_eq!(found.token, Some("tok_db".to_string()));
    assert_eq!(found.https, Some(true));
}

#[test]
fn store_wins_over_conflicting_config() {
    let providers = vec![provider("github.com", true, vec![account("alice", "tok_cfg")])];
    let row = git_row("github.com", "alice", "tok_db", false);
    let found = git_token("github.com", "alice", Ok(Some(row)), &providers).unwrap();
    assert_eq!(found.token, Some("tok_db".to_string()));
    assert_eq!(found.https, Some(false));
}

#[test]
fn config_gives_token_where_store_has_none() {
    let providers = vec![provider("github.com", true, vec![account("alice", "tok_cfg")])];
    let found = git_token("github.com", "alice", Ok(None), &providers).unwrap();
    assert_eq!(found.token, Some("tok_cfg".to_string()));
    assert_eq!(found.https, Some(true));
}

#[test]
fn config_provider_without_the_account_still_gives_hint() {
    let providers = vec![provider("github.com", false, vec![account("bob", "tok_bob")])];
    let found = git_token("github.com", "alice", Ok(None), &providers).unwrap();
    assert_eq!(found.token, None);
    assert_eq!(found.https, Some(false));
}

#[test]
fn unknown_provider_gives_neither_token_nor_hint() {
    let providers = vec![provider("gitlab.com", true, vec![account("alice", "tok_cfg")])];
    let found = git_token("github.com", "alice", Ok(None), &providers).unwrap();
    assert_eq!(found.token, None);
    assert_eq!(found.https, None);
    let found = git_token("github.com", "alice", Ok(None), &Vec::new()).unwrap();
    assert_eq!(found.token, None);
    assert_eq!(found.https, None);
}

#[test]
fn first_provider_of_a_domain_wins() {
    let providers = vec![
        provider("gitlab.com", true, vec![account("alice", "tok_gitlab")]),
        provider("github.com", false, vec![account("bob", "tok_bob")]),
        provider("github.com", true, vec![account("alice", "tok_second")]),
    ];
    let found = git_token("github.com", "alice", Ok(None), &providers).unwrap();
    assert_eq!(found.token, None);
    assert_eq!(found.https, Some(false));
    let found = git_token("github.com", "bob", Ok(None), &providers).unwrap();
    assert_eq!(found.token, Some("tok_bob".to_string()));
    assert_eq!(found.https, Some(false));
}

#[test]
fn first_account_of_a_username_wins() {
    let providers = vec![provider(
        "github.com",
        true,
        vec![account("bob", "tok_bob"), account("alice", "tok_first"), account("alice", "tok_second")],
    )];
    let found = git_token("github.com", "alice", Ok(None), &providers).unwrap();
    assert_eq!(found.token, Some("tok_first".to_string()));
    assert_eq!(found.https, Some(true));
}

#[test]
fn store_failure_is_surfaced_and_config_not_used() {
    let providers = vec![provider("github.com", true, vec![account("alice", "tok_cfg")])];
    let failure: StoreUnavailable =
        git_token("github.com", "alice", Err("connection refused".to_string()), &providers)
            .unwrap_err();
    assert_eq!(failure.query, StoreQuery::GitAccounts);
    assert_eq!(failure.cause, "connection refused");
    assert_eq!(
        failure.message(),
        "failed to query db for git provider accounts: connection refused"
    );
}

#[test]
fn registry_store_row_gives_token() {
    let registries = vec![registry("docker.io", vec![account("alice", "tok_cfg")])];
    let row = registry_row("docker.io", "alice", "tok_db");
    let token = registry_token("docker.io", "alice", Ok(Some(row)), &registries).unwrap();
    assert_eq!(token, Some("tok_db".to_string()));
}

#[test]
fn registry_config_gives_token_where_store_has_none() {
    let registries = vec![
        registry("ghcr.io", vec![account("alice", "tok_ghcr")]),
        registry("docker.io", vec![account("bob", "tok_bob"), account("alice", "tok_cfg")]),
        registry("docker.io", vec![account("carol", "tok_carol")]),
    ];
    assert_eq!(
        registry_token("docker.io", "alice", Ok(None), &registries).unwrap(),
        Some("tok_cfg".to_string())
    );
    assert_eq!(registry_token("docker.io", "carol", Ok(None), &registries).unwrap(), None);
    assert_eq!(registry_token("quay.io", "alice", Ok(None), &registries).unwrap(), None);
}

#[test]
fn registry_empty_input_resolves_to_nothing() {
    let registries = vec![registry("", vec![account("alice", "tok_cfg")])];
    let row = registry_row("", "alice", "tok_db");
    assert_eq!(registry_token("", "alice", Ok(Some(row)), &registries).unwrap(), None);
    assert_eq!(
        registry_token("docker.io", "", Err("down".to_string()), &registries).unwrap(),
        None
    );
}

#[test]
fn registry_store_failure_is_surfaced() {
    let registries = vec![registry("docker.io", vec![account("alice", "tok_cfg")])];
    let failure =
        registry_token("docker.io", "alice", Err("timed out".to_string()), &registries)
            .unwrap_err();
    assert_eq!(failure.query, StoreQuery::RegistryAccounts);
    assert_eq!(failure.cause, "timed out");
    assert_eq!(failure.message(), "failed to query db for docker registry accounts: timed out");
}

#[test]
fn stack_query_prefers_the_linked_repo() {
    let stack = stack("github.com", "alice", false);
    let repo = repo("gitlab.com", "bob", false);
    let query = stack_git_token_query(&stack, Some(&repo)).unwrap();
    assert_eq!(query.collection, StoreQuery::GitAccounts);
    assert_eq!(query.domain, "gitlab.com");
    assert_eq!(query.username, "bob");
    let query = stack_git_token_query(&stack, None).unwrap();
    assert_eq!(query.domain, "github.com");
    assert_eq!(query.username, "alice");
    let public_repo = self::repo("gitlab.com", "", false);
    assert!(stack_git_token_query(&stack, Some(&public_repo)).is_none());
}

#[test]
fn stack_token_writes_hint_to_the_stack() {
    let providers = vec![provider("github.com", true, vec![account("alice", "tok_cfg")])];
    let mut stack = stack("github.com", "alice", false);
    let token = stack_git_token(&mut stack, None, Ok(None), &providers).unwrap();
    assert_eq!(token, Some("tok_cfg".to_string()));
    assert!(stack.config.git_https);
    assert_eq!(stack.config.git_provider, "github.com");
    assert_eq!(stack.config.git_account, "alice");
    assert_eq!(stack.id, "stack-id");
    assert_eq!(stack.name, "stack");
}

#[test]
fn stack_token_writes_hint_to_the_linked_repo() {
    let mut stack = stack("github.com", "alice", false);
    let mut repo = repo("gitlab.com", "bob", true);
    let row = git_row("gitlab.com", "bob", "tok_db", false);
    let token = stack_git_token(&mut stack, Some(&mut repo), Ok(Some(row)), &Vec::new()).unwrap();
    assert_eq!(token, Some("tok_db".to_string()));
    assert!(!repo.config.git_https);
    assert!(!stack.config.git_https);
    assert_eq!(repo.config.git_provider, "gitlab.com");
    assert_eq!(repo.config.git_account, "bob");
    assert_eq!(stack.config.git_provider, "github.com");
}

#[test]
fn stack_token_leaves_flag_where_nothing_gives_a_hint() {
    let mut stack = stack("github.com", "alice", true);
    let token = stack_git_token(&mut stack, None, Ok(None), &Vec::new()).unwrap();
    assert_eq!(token, None);
    assert!(stack.config.git_https);
    let mut public_stack = self::stack("github.com", "", true);
    let providers = vec![provider("github.com", false, vec![])];
    let token = stack_git_token(&mut public_stack, None, Ok(None), &providers).unwrap();
    assert_eq!(token, None);
    assert!(public_stack.config.git_https);
}

#[test]
fn stack_token_failure_names_provider_and_account() {
    let mut stack = stack("github.com", "alice", true);
    let failure: GitTokenUnavailable =
        stack_git_token(&mut stack, None, Err("no primary".to_string()), &Vec::new()).unwrap_err();
    assert_eq!(failure.provider, "github.com");
    assert_eq!(failure.account, "alice");
    assert_eq!(failure.source.query, StoreQuery::GitAccounts);
    assert_eq!(failure.source.cause, "no primary");
    assert_eq!(
        failure.message(),
        "Failed to get git token. Stopping run. | github.com | alice: failed to query db for git provider accounts: no primary"
    );
    assert!(stack.config.git_https);
}

#[test]
fn build_query_prefers_the_linked_repo() {
    let build = build("github.com", "alice", false);
    let repo = repo("gitlab.com", "bob", false);
    let query = build_git_token_query(&build, Some(&repo)).unwrap();
    assert_eq!(query.domain, "gitlab.com");
    assert_eq!(query.username, "bob");
    let query = build_git_token_query(&build, None).unwrap();
    assert_eq!(query.domain, "github.com");
    assert_eq!(query.username, "alice");
}

#[test]
fn build_token_writes_hint_to_the_build() {
    let providers = vec![provider("github.com", false, vec![account("bob", "tok_bob")])];
    let mut build = build("github.com", "alice", true);
    let token = build_git_token(&mut build, None, Ok(None), &providers).unwrap();
    assert_eq!(token, None);
    assert!(!build.config.git_https);
    assert_eq!(build.id, "build-id");
}

#[test]
fn build_token_writes_hint_to_the_linked_repo() {
    let providers = vec![provider("gitlab.com", true, vec![account("bob", "tok_bob")])];
    let mut build = build("github.com", "alice", false);
    let mut repo = repo("gitlab.com", "bob", false);
    let token = build_git_token(&mut build, Some(&mut repo), Ok(None), &providers).unwrap();
    assert_eq!(token, Some("tok_bob".to_string()));
    assert!(repo.config.git_https);
    assert!(!build.config.git_https);
}

#[test]
fn build_token_failure_names_the_repo_asked_for() {
    let mut build = build("github.com", "alice", false);
    let mut repo = repo("gitlab.com", "bob", true);
    let failure =
        build_git_token(&mut build, Some(&mut repo), Err("down".to_string()), &Vec::new())
            .unwrap_err();
    assert_eq!(failure.provider, "gitlab.com");
    assert_eq!(failure.account, "bob");
    assert_eq!(failure.source.cause, "down");
    assert!(repo.config.git_https);
    assert!(!build.config.git_https);
}
