use connect_proxy::config::Config;
use connect_proxy::config::ConfigError;

#[test]
fn full_credential_pair_is_accepted() {
    let config = Config::new(
        8080,
        "proxy.example:3128".to_string(),
        "example.com:443".to_string(),
        Some("alice".to_string()),
        Some("secret".to_string()),
    )
    .unwrap();
    assert_eq!(config.port, 8080);
    assert_eq!(config.proxy_address, "proxy.example:3128");
    assert_eq!(config.target, "example.com:443");
    let credentials = config.credentials.unwrap();
    assert_eq!(credentials.username, "alice");
    assert_eq!(credentials.password, "secret");
}

#[test]
fn absent_credentials_are_accepted() {
    let config = Config::new(
        8080,
        "proxy.example:3128".to_string(),
        "example.com:443".to_string(),
        None,
        None,
    )
    .unwrap();
    assert!(config.credentials.is_none());
}

#[test]
fn username_without_password_is_rejected() {
    let result = Config::new(
        8080,
        "proxy.example:3128".to_string(),
        "example.com:443".to_string(),
        Some("alice".to_string()),
        None,
    );
    assert_eq!(result.unwrap_err(), ConfigError::UsernameWithoutPassword);
}

#[test]
fn password_without_username_is_rejected() {
    let result = Config::new(
        8080,
        "proxy.example:3128".to_string(),
        "example.com:443".to_string(),
        None,
        Some("secret".to_string()),
    );
    assert_eq!(result.unwrap_err(), ConfigError::PasswordWithoutUsername);
}
