use std::sync::Arc;

use sapa_backend::auth::{exchanged_of, AdminAuthError, AdminAuthService};
use sapa_backend::config::TwitchConfig;
use sapa_backend::credentials::{InMemoryPlatformCredentialRepository, PlatformCredentialRepository};
use sapa_backend::ids::PlatformId;

fn test_config() -> Option<Arc<TwitchConfig>> {
    Some(Arc::new(TwitchConfig {
        client_id: "client_id".to_string(),
        client_secret: "client_secret".to_string(),
        broadcaster_id: String::new(),
        redirect_uri: "https://localhost:8080/callback".to_string(),
        credentials_redirect_uri: "https://localhost:8080/creds/callback".to_string(),
        csrf_ttl_secs: 600,
    }))
}

fn test_service(
    config: Option<Arc<TwitchConfig>>,
) -> AdminAuthService<InMemoryPlatformCredentialRepository> {
    AdminAuthService::new(config, InMemoryPlatformCredentialRepository::new())
}

fn auth_url_redirect_uri(auth_url: &str) -> String {
    url::Url::parse(auth_url)
        .expect("auth url parses")
        .query_pairs()
        .find(|(key, _)| key == "redirect_uri")
        .map(|(_, value)| value.into_owned())
        .expect("auth url carries redirect_uri")
}

fn auth_url_param(auth_url: &str, name: &str) -> Option<String> {
    url::Url::parse(auth_url)
        .expect("auth url parses")
        .query_pairs()
        .find(|(key, _)| key == name)
        .map(|(_, value)| value.into_owned())
}

#[test]
fn start_requires_twitch_config() {
    let mut service = test_service(None);
    assert!(matches!(
        service.start(),
        Err(AdminAuthError::NotConfigured)
    ));
}

#[test]
fn start_returns_redirect_url() {
    let mut service = test_service(test_config());
    let url = service.start().expect("start should succeed");
    assert!(url.starts_with("https://id.twitch.tv/oauth2/authorize"));
}

#[test]
fn start_uses_credentials_redirect_uri() {
    let mut service = test_service(test_config());
    let url = service.start().expect("start should succeed");
    assert_eq!(
        auth_url_redirect_uri(&url),
        "https://localhost:8080/creds/callback"
    );
}

#[test]
fn start_login_uses_login_redirect_uri() {
    let mut service = test_service(test_config());
    let url = service.start_login().expect("start_login should succeed");
    assert_eq!(
        auth_url_redirect_uri(&url),
        "https://localhost:8080/callback"
    );
}

#[test]
fn start_login_requires_twitch_config() {
    let mut service = test_service(None);
    assert!(matches!(
        service.start_login(),
        Err(AdminAuthError::NotConfigured)
    ));
}

#[test]
fn concurrent_starts_keep_own_csrf_tickets() {
    let mut service = test_service(test_config());
    let first = service.start().expect("first start");
    let second = service.start().expect("second start");
    assert_ne!(first, second, "each start must mint its own ticket");

    assert_eq!(service.pending_ticket_count(), 2);
}

#[test]
fn completing_consumes_only_own_ticket() {
    let mut service = test_service(test_config());
    service.start().expect("first start");
    service.start().expect("second start");

    let first_ticket = service
        .pending_tickets()
        .into_iter()
        .min()
        .expect("has ticket");
    assert!(service.consume_csrf(&first_ticket).is_ok());
    assert_eq!(service.pending_ticket_count(), 1);
}

#[test]
fn start_scopes_and_state_in_url() {
    let mut service = test_service(test_config());
    let url = service.start().expect("start");
    assert_eq!(
        auth_url_param(&url, "scope").as_deref(),
        Some("chat:read user:bot channel:bot")
    );
    let state = auth_url_param(&url, "state").expect("state");
    assert_eq!(service.pending_tickets(), vec![state]);

    let login = service.start_login().expect("login");
    assert_eq!(auth_url_param(&login, "scope"), None);
}

#[test]
fn unknown_state_is_rejected() {
    let mut service = test_service(test_config());
    service.start().expect("start");
    assert!(matches!(
        service.consume_csrf("not-a-real-state"),
        Err(AdminAuthError::CsrfMismatch)
    ));
    assert_eq!(service.pending_ticket_count(), 1);
}

#[test]
fn expired_ticket_is_pruned_on_complete() {
    let mut service = test_service(test_config());
    service.start_at(-601_000_000).expect("start so long ago that the ticket expired a second before the clock began");
    let stale = service.pending_tickets().pop().expect("ticket");
    assert!(matches!(
        service.consume_csrf(&stale),
        Err(AdminAuthError::CsrfMismatch)
    ));
    assert_eq!(service.pending_ticket_count(), 0);
}

#[test]
fn ticket_is_single_use() {
    let mut service = test_service(test_config());
    service.start_at(1_000).expect("start");
    let ticket = service.pending_tickets().pop().expect("ticket");
    assert!(service.consume_csrf_at(&ticket, 2_000).is_ok());
    assert!(matches!(
        service.consume_csrf_at(&ticket, 2_000),
        Err(AdminAuthError::CsrfMismatch)
    ));
}

#[test]
fn ticket_lifetime_follows_config() {
    let mut service = test_service(test_config());
    service.start_at(0).expect("start");
    let ticket = service.pending_tickets().pop().expect("ticket");
    assert!(matches!(
        service.consume_csrf_at(&ticket, 600_000_000),
        Err(AdminAuthError::CsrfMismatch)
    ));

    service.start_at(0).expect("start again");
    let ticket = service.pending_tickets().pop().expect("ticket");
    assert!(service.consume_csrf_at(&ticket, 599_999_999).is_ok());
}

#[test]
fn consume_without_config_is_not_configured() {
    let mut service = test_service(None);
    assert!(matches!(
        service.consume_csrf("x"),
        Err(AdminAuthError::NotConfigured)
    ));
}

#[test]
fn invalid_redirect_is_reported() {
    let mut service = test_service(Some(Arc::new(TwitchConfig {
        client_id: "client_id".to_string(),
        client_secret: "client_secret".to_string(),
        broadcaster_id: String::new(),
        redirect_uri: "not a url".to_string(),
        credentials_redirect_uri: "https://localhost:8080/creds/callback".to_string(),
        csrf_ttl_secs: 600,
    })));
    assert!(matches!(
        service.start_login(),
        Err(AdminAuthError::InvalidRedirectUri)
    ));
    assert_eq!(service.pending_ticket_count(), 0);
    assert!(service.start().is_ok());
}

#[test]
fn ingress_credentials_configuration_lifecycle() {
    let mut service = test_service(test_config());
    assert!(!service.is_ingress_credentials_configured().unwrap());

    service
        .credentials_mut()
        .save_credential(PlatformId::twitch(), "tok")
        .unwrap();
    assert!(service.is_ingress_credentials_configured().unwrap());

    service.revoke_ingress_credentials().unwrap();
    assert!(!service.is_ingress_credentials_configured().unwrap());
}

#[test]
fn complete_stores_refresh_token() {
    let mut service = test_service(test_config());
    assert!(matches!(
        service.complete_with_token(None, Some("1".to_string()), None),
        Err(AdminAuthError::Exchange)
    ));
    let who = service
        .complete_with_token(Some("  refresh  "), None, Some("bot".to_string()))
        .expect("stored");
    assert_eq!(who.user_id, "");
    assert_eq!(who.user_name.as_deref(), Some("bot"));
    assert_eq!(
        service
            .credentials()
            .load_credential(PlatformId::twitch())
            .unwrap()
            .as_deref(),
        Some("refresh")
    );
}

#[test]
fn exchanged_of_defaults_missing_id() {
    let t = exchanged_of(Some("42".to_string()), None);
    assert_eq!(t.user_id, "42");
    assert!(t.user_name.is_none());
}

#[test]
fn auth_error_status_codes() {
    assert_eq!(AdminAuthError::NotConfigured.status_code(), 400);
    assert_eq!(AdminAuthError::CsrfMismatch.status_code(), 403);
    assert_eq!(AdminAuthError::InvalidRedirectUri.status_code(), 500);
    assert_eq!(AdminAuthError::Exchange.status_code(), 500);
    assert_eq!(AdminAuthError::Persist.status_code(), 500);
}

#[test]
fn start_asks_for_bot_scopes_and_books_its_state() {
    let mut service = test_service(test_config());
    let url = service.start().expect("start should succeed");
    assert!(url.starts_with("https://id.twitch.tv/oauth2/authorize?response_type=code&client_id="));
    assert_eq!(auth_url_param(&url, "scope").as_deref(), Some("chat:read user:bot channel:bot"));
    let state = auth_url_param(&url, "state").expect("state");
    assert_eq!(state.len(), 24);
    assert!(service.pending_tickets().contains(&state));
}

#[test]
fn start_login_asks_for_no_scopes() {
    let mut service = test_service(test_config());
    let url = service.start_login().expect("start_login should succeed");
    assert_eq!(auth_url_param(&url, "scope"), None);
    let state = auth_url_param(&url, "state").expect("state");
    assert!(service.pending_tickets().contains(&state));
}

#[test]
fn begin_exchange_checks_ticket_then_redirect() {
    let mut service = test_service(test_config());
    let url = service.start_login().expect("start_login");
    let state = auth_url_param(&url, "state").expect("state");
    assert!(service.begin_exchange(&state, true).is_ok());
    assert!(matches!(service.begin_exchange(&state, true), Err(AdminAuthError::CsrfMismatch)));

    let mut bad = TwitchConfig::clone(test_config().as_ref().unwrap());
    bad.credentials_redirect_uri = "not a url".to_string();
    let mut service = test_service(Some(Arc::new(bad)));
    service.start_at(1_000).expect_err("credentials redirect does not parse");
    let login_url = service.start_login_at(1_000).expect("login redirect parses");
    let state = auth_url_param(&login_url, "state").expect("state");
    assert!(matches!(
        service.begin_exchange_at(&state, false, 2_000),
        Err(AdminAuthError::InvalidRedirectUri)
    ));
    assert_eq!(service.pending_ticket_count(), 0);
}

#[test]
fn completed_credentials_are_stored_trimmed_and_revocable() {
    let mut service = test_service(test_config());
    service.complete_with_token(Some("  refresh  "), None, None).expect("stored");
    assert_eq!(
        service.credentials().load_credential(PlatformId::twitch()).unwrap(),
        Some("refresh".to_string())
    );
    assert!(service.is_ingress_credentials_configured().unwrap());
    service.revoke_ingress_credentials().unwrap();
    assert!(!service.is_ingress_credentials_configured().unwrap());
}
