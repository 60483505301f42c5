use indexmap::IndexSet;
use komodo_core::config::CoreConfig;
use komodo_core::entities::permission::{PermissionLevel, SpecificPermission, UserTarget};
use komodo_core::entities::provider::{GitAccount, GitProvider, ProviderAccount};
use komodo_core::entities::server::{RequestHeader, Server, ServerConfig};
use komodo_core::entities::target::ResourceTarget;
use komodo_core::entities::user::User;
use komodo_core::error::ServerDisabled;
use komodo_core::helpers::credentials::{git_token, git_token_query};
use komodo_core::helpers::periphery::periphery_client;
use komodo_core::helpers::permission::create_permission;

fn github(accounts: Vec<(&str, &str)>) -> Vec<GitProvider> {
    vec![GitProvider {
        domain: "github.com".to_string(),
        https: true,
        accounts: accounts
            .into_iter()
            .map(|(username, token)| ProviderAccount {
                username: username.to_string(),
                token: token.to_string(),
            })
            .collect(),
    }]
}

fn core_config(passkey: &str) -> CoreConfig {
    CoreConfig {
        passkey: passkey.to_string(),
        git_providers: Vec::new(),
        docker_registries: Vec::new(),
    }
}

fn server(config: ServerConfig) -> Server {
    Server { id: "server-id".to_string(), name: "server".to_string(), config }
}

fn user(id: &str, admin: bool) -> User {
    User { id: id.to_string(), username: "someone".to_string(), admin }
}

#[test]
fn store_account_resolves_without_config() {
    assert!(git_token_query("github.com", "alice").is_some());
    let row = GitAccount {
        domain: "github.com".to_string(),
        username: "alice".to_string(),
        token: "tok_db".to_string(),
        https: true,
    };
    let mut hints: Vec<bool> = Vec::new();
    let found = git_token("github.com", "alice", Ok(Some(row)), &Vec::new()).unwrap();
    hints.extend(found.https);
    assert_eq!(found.token, Some("tok_db".to_string()));
    assert_eq!(hints, vec![true]);
}

#[test]
fn config_account_resolves_with_empty_store() {
    let providers = github(vec![("alice", "tok_cfg")]);
    let mut hints: Vec<bool> = Vec::new();
    let found = git_token("github.com", "alice", Ok(None), &providers).unwrap();
    hints.extend(found.https);
    assert_eq!(found.token, Some("tok_cfg".to_string()));
    assert_eq!(hints, vec![true]);
}

#[test]
fn config_provider_with_other_username_gives_hint_only() {
    let providers = github(vec![("bob", "tok_cfg")]);
    let mut hints: Vec<bool> = Vec::new();
    let found = git_token("github.com", "alice", Ok(None), &providers).unwrap();
    hints.extend(found.https);
    assert_eq!(found.token, None);
    assert_eq!(hints, vec![true]);
}

#[test]
fn disabled_server_is_refused() {
    let mut config = ServerConfig::default();
    config.enabled = false;
    config.address = "x".to_string();
    let refusal = periphery_client(&server(config), &core_config("P")).unwrap_err();
    assert_eq!(refusal, ServerDisabled);
    assert_eq!(refusal.message(), "server not enabled");
}

#[test]
fn default_server_is_refused() {
    assert!(periphery_client(&server(ServerConfig::default()), &core_config("P")).is_err());
}

#[test]
fn enabled_server_without_passkey_inherits_the_shared_one() {
    let mut config = ServerConfig::default();
    config.enabled = true;
    config.address = "https://h:8120".to_string();
    config.passkey = String::new();
    config.timeout_seconds = 5;
    config.request_headers = vec![
        RequestHeader { name: "CF-Access-Client-Id".to_string(), value: "id".to_string() },
        RequestHeader { name: "CF-Access-Client-Secret".to_string(), value: "secret".to_string() },
    ];
    let client = periphery_client(&server(config), &core_config("P")).unwrap();
    assert_eq!(client.address, "https://h:8120");
    assert_eq!(client.passkey, "P");
    assert_eq!(client.timeout_seconds, 5);
    assert_eq!(client.request_headers.len(), 2);
    assert_eq!(client.request_headers[0].name, "CF-Access-Client-Id");
    assert_eq!(client.request_headers[0].value, "id");
    assert_eq!(client.request_headers[1].name, "CF-Access-Client-Secret");
    assert_eq!(client.request_headers[1].value, "secret");
}

#[test]
fn server_passkey_overrides_the_shared_one() {
    let mut config = ServerConfig::default();
    config.enabled = true;
    config.passkey = "own".to_string();
    let client = periphery_client(&server(config), &core_config("P")).unwrap();
    assert_eq!(client.passkey, "own");
    assert_eq!(client.address, "https://periphery:8120");
    assert_eq!(client.timeout_seconds, 3);
    assert!(client.request_headers.is_empty());
}

#[test]
fn blank_passkey_is_a_passkey() {
    let mut config = ServerConfig::default();
    config.enabled = true;
    config.passkey = " ".to_string();
    let client = periphery_client(&server(config), &core_config("P")).unwrap();
    assert_eq!(client.passkey, " ");
}

#[test]
fn timeout_is_read_as_unsigned() {
    let mut config = ServerConfig::default();
    config.enabled = true;
    config.timeout_seconds = 0;
    assert_eq!(periphery_client(&server(config.copy()), &core_config("P")).unwrap().timeout_seconds, 0);
    config.timeout_seconds = i64::MAX;
    assert_eq!(
        periphery_client(&server(config.copy()), &core_config("P")).unwrap().timeout_seconds,
        9_223_372_036_854_775_807
    );
    config.timeout_seconds = -1;
    assert_eq!(
        periphery_client(&server(config.copy()), &core_config("P")).unwrap().timeout_seconds,
        u64::MAX
    );
    config.timeout_seconds = i64::MIN;
    assert_eq!(
        periphery_client(&server(config.copy()), &core_config("P")).unwrap().timeout_seconds,
        9_223_372_036_854_775_808
    );
}

#[test]
fn admin_gets_no_permission_row() {
    let row = create_permission(
        &user("admin-id", true),
        ResourceTarget::Server("srv1".to_string()),
        PermissionLevel::Write,
        IndexSet::new(),
    );
    assert!(row.is_none());
}

#[test]
fn other_user_gets_one_row_for_themselves() {
    let row = create_permission(
        &user("user-id", false),
        ResourceTarget::Server("srv1".to_string()),
        PermissionLevel::Read,
        IndexSet::new(),
    )
    .unwrap();
    assert_eq!(row.id, "");
    assert_eq!(row.user_target, UserTarget::User("user-id".to_string()));
    assert_eq!(row.resource_target, ResourceTarget::Server("srv1".to_string()));
    assert_eq!(row.level, PermissionLevel::Read);
    assert!(row.specific.is_empty());
}

#[test]
fn specific_grants_are_kept_in_order() {
    let mut specific = IndexSet::new();
    specific.insert(SpecificPermission::Terminal);
    specific.insert(SpecificPermission::Logs);
    specific.insert(SpecificPermission::Attach);
    let row = create_permission(
        &user("user-id", false),
        ResourceTarget::Stack("stack1".to_string()),
        PermissionLevel::Execute,
        specific,
    )
    .unwrap();
    assert_eq!(row.resource_target, ResourceTarget::Stack("stack1".to_string()));
    assert_eq!(row.resource_target.id(), "stack1");
    assert_eq!(row.level, PermissionLevel::Execute);
    let kept: Vec<SpecificPermission> = row.specific.into_iter().collect();
    assert_eq!(
        kept,
        vec![SpecificPermission::Terminal, SpecificPermission::Logs, SpecificPermission::Attach]
    );
}

#[test]
fn levels_are_ordered_from_least_to_most() {
    assert!(PermissionLevel::NoAccess < PermissionLevel::Read);
    assert!(PermissionLevel::Read < PermissionLevel::Execute);
    assert!(PermissionLevel::Execute < PermissionLevel::Write);
    assert!(PermissionLevel::Write > PermissionLevel::NoAccess);
    assert!(PermissionLevel::Read >= PermissionLevel::Read);
    assert!(!(PermissionLevel::Read >= PermissionLevel::Execute));
    assert_eq!(PermissionLevel::default(), PermissionLevel::NoAccess);
    assert_eq!(
        PermissionLevel::Execute.partial_cmp(&PermissionLevel::Write),
        Some(std::cmp::Ordering::Less)
    );
    assert_eq!(PermissionLevel::Write.max(PermissionLevel::Read), PermissionLevel::Write);
}
