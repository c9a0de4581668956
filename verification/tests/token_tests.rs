use azure_app_secrets_monitor::settings::{port_from_config, AppSettings};
use azure_app_secrets_monitor::token::{
    AzureClientTokenProvider, TokenError, TokenExchange, AZURE_TOKEN_FETCH_RETRY,
};

fn provider() -> AzureClientTokenProvider {
    let settings = AppSettings {
        azure_client_id: "client".to_string(),
        azure_client_secret: "secret".to_string(),
        azure_tenant_id: "tenant-123".to_string(),
        port: 9912,
    };
    AzureClientTokenProvider::init(&settings)
}

#[test]
fn init_builds_tenant_urls_and_holds_no_token() {
    let p = provider();
    assert_eq!(
        p.auth_url,
        "https://login.microsoftonline.com/tenant-123/oauth2/v2.0/authorize"
    );
    assert_eq!(
        p.token_url,
        "https://login.microsoftonline.com/tenant-123/oauth2/v2.0/token"
    );
    assert!(p.token.is_none());
    assert_eq!(p.get_secret(0), Err(TokenError::NoToken));
}

#[test]
fn refresh_success_is_valid_until_margin_before_lifetime() {
    let mut p = provider();
    let granted = TokenExchange::Granted {
        secret: "tok-1".to_string(),
        lifetime_secs: Some(3600),
    };
    let expiry = p.refresh(1000, granted);
    assert_eq!(expiry, Ok(1000 + 3600 - 60));
    assert_eq!(p.get_secret(1000), Ok("tok-1".to_string()));
    assert_eq!(p.get_secret(4539), Ok("tok-1".to_string()));
    assert_eq!(p.get_secret(4540), Err(TokenError::NoToken));
    assert_eq!(p.get_secret(9999), Err(TokenError::NoToken));
}

#[test]
fn refresh_failure_clears_previous_token() {
    let mut p = provider();
    let granted = TokenExchange::Granted {
        secret: "tok-1".to_string(),
        lifetime_secs: Some(3600),
    };
    p.refresh(0, granted).unwrap();
    assert!(p.get_secret(10).is_ok());
    let r = p.refresh(20, TokenExchange::Denied);
    assert_eq!(r, Err(TokenError::ExchangeFailed));
    assert!(p.token.is_none());
    assert_eq!(p.get_secret(21), Err(TokenError::NoToken));
}

#[test]
fn refresh_without_lifetime_fails_and_clears() {
    let mut p = provider();
    let granted = TokenExchange::Granted {
        secret: "tok-1".to_string(),
        lifetime_secs: Some(3600),
    };
    p.refresh(0, granted).unwrap();
    let missing = TokenExchange::Granted {
        secret: "tok-2".to_string(),
        lifetime_secs: None,
    };
    assert_eq!(p.refresh(5, missing), Err(TokenError::MissingLifetime));
    assert!(p.token.is_none());
    assert_eq!(p.get_secret(6), Err(TokenError::NoToken));
}

#[test]
fn lifetime_shorter_than_margin_expires_at_once() {
    let mut p = provider();
    let granted = TokenExchange::Granted {
        secret: "tok-1".to_string(),
        lifetime_secs: Some(30),
    };
    let expiry = p.refresh(100, granted).unwrap();
    assert_eq!(expiry, 70);
    assert_eq!(p.get_secret(100), Err(TokenError::NoToken));
}

#[test]
fn next_refresh_deadline_follows_result() {
    assert_eq!(
        AzureClientTokenProvider::next_refresh_deadline(500, &Ok(4540)),
        4540
    );
    assert_eq!(
        AzureClientTokenProvider::next_refresh_deadline(500, &Err(TokenError::ExchangeFailed)),
        500 + AZURE_TOKEN_FETCH_RETRY
    );
}

#[test]
fn token_error_messages() {
    assert_eq!(TokenError::NoToken.message(), "No Azure token available");
    assert_eq!(
        TokenError::ExchangeFailed.message(),
        "Failed to retrieve Azure token"
    );
    assert_eq!(
        TokenError::MissingLifetime.message(),
        "Token doesn't have expiration date"
    );
}

#[test]
fn port_in_range_is_accepted() {
    assert_eq!(port_from_config(9912), Some(9912));
    assert_eq!(port_from_config(0), Some(0));
    assert_eq!(port_from_config(65535), Some(65535));
    assert_eq!(port_from_config(65536), None);
    assert_eq!(port_from_config(-1), None);
}
