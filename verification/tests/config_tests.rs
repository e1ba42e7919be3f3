use kangbot::config::{Config, ConfigError, DatabaseConfig, EnvValues, WebhookConfig};

#[test]
fn test_validate_empty_token() {
    let config = Config {
        telegram_bot_token: String::new(),
        database: DatabaseConfig::Sqlite { path: "test.db".to_string() },
        webhook: None,
        owner_id: None,
        telegram_api_url: None,
    };
    let result = config.validate();
    assert!(result.is_err());
    assert!(matches!(result, Err(ConfigError::InvalidValue("TELEGRAM_BOT_TOKEN cannot be empty"))));
}

#[test]
fn test_validate_invalid_turso_url() {
    let config = Config {
        telegram_bot_token: "valid_token".to_string(),
        database: DatabaseConfig::Turso { url: "invalid-url".to_string(), auth_token: "token".to_string() },
        webhook: None,
        owner_id: None,
        telegram_api_url: None,
    };
    let result = config.validate();
    assert!(result.is_err());
    assert!(matches!(result, Err(ConfigError::InvalidValue("DATABASE_URL must be a valid Turso URL"))));
}

#[test]
fn test_validate_valid_config() {
    let config = Config {
        telegram_bot_token: "valid_token".to_string(),
        database: DatabaseConfig::Sqlite { path: "test.db".to_string() },
        webhook: None,
        owner_id: None,
        telegram_api_url: None,
    };
    assert!(config.validate().is_ok());
}

#[test]
fn test_validate_valid_turso_url_libsql() {
    let config = Config {
        telegram_bot_token: "valid_token".to_string(),
        database: DatabaseConfig::Turso {
            url: "libsql://example.turso.io".to_string(),
            auth_token: "token".to_string(),
        },
        webhook: None,
        owner_id: None,
        telegram_api_url: None,
    };
    assert!(config.validate().is_ok());
}

#[test]
fn test_validate_valid_turso_url_http() {
    let config = Config {
        telegram_bot_token: "valid_token".to_string(),
        database: DatabaseConfig::Turso {
            url: "https://example.turso.io".to_string(),
            auth_token: "token".to_string(),
        },
        webhook: None,
        owner_id: None,
        telegram_api_url: None,
    };
    assert!(config.validate().is_ok());
}

#[test]
fn test_validate_webhook_url_not_https() {
    let config = Config {
        telegram_bot_token: "valid_token".to_string(),
        database: DatabaseConfig::Sqlite { path: "test.db".to_string() },
        webhook: Some(WebhookConfig {
            url: "mailto:example.com/webhook".to_string(),
            secret: "a".repeat(32),
            host: "0.0.0.0".to_string(),
            port: 8080,
        }),
        owner_id: None,
        telegram_api_url: None,
    };
    let result = config.validate();
    assert!(result.is_err());
    assert!(matches!(result, Err(ConfigError::InvalidValue(_))));
}

#[test]
fn test_validate_webhook_secret_too_short() {
    let config = Config {
        telegram_bot_token: "valid_token".to_string(),
        database: DatabaseConfig::Sqlite { path: "test.db".to_string() },
        webhook: Some(WebhookConfig {
            url: "https://example.com/webhook".to_string(),
            secret: "short_secret".to_string(),
            host: "0.0.0.0".to_string(),
            port: 8080,
        }),
        owner_id: None,
        telegram_api_url: None,
    };
    let result = config.validate();
    assert!(result.is_err());
    assert!(matches!(
        result,
        Err(ConfigError::InvalidValue("WEBHOOK_SECRET must be at least 32 characters"))
    ));
}

#[test]
fn test_validate_valid_webhook_config() {
    let config = Config {
        telegram_bot_token: "valid_token".to_string(),
        database: DatabaseConfig::Sqlite { path: "test.db".to_string() },
        webhook: Some(WebhookConfig {
            url: "https://example.com/webhook".to_string(),
            secret: "a".repeat(32),
            host: "0.0.0.0".to_string(),
            port: 8080,
        }),
        owner_id: None,
        telegram_api_url: None,
    };
    assert!(config.validate().is_ok());
}

#[test]
fn test_validate_empty_turso_token() {
    let config = Config {
        telegram_bot_token: "valid_token".to_string(),
        database: DatabaseConfig::Turso { url: "libsql://x.turso.io".to_string(), auth_token: String::new() },
        webhook: None,
        owner_id: None,
        telegram_api_url: None,
    };
    assert!(matches!(
        config.validate(),
        Err(ConfigError::InvalidValue("TURSO_AUTH_TOKEN cannot be empty for Turso database"))
    ));
}

#[test]
fn test_validate_secret_counts_bytes() {
    // 16 two-byte characters make 32 bytes
    let config = Config {
        telegram_bot_token: "t".to_string(),
        database: DatabaseConfig::Sqlite { path: "x".to_string() },
        webhook: Some(WebhookConfig {
            url: "https://example.com".to_string(),
            secret: "é".repeat(16),
            host: "h".to_string(),
            port: 1,
        }),
        owner_id: None,
        telegram_api_url: None,
    };
    assert!(config.validate().is_ok());
}

fn no_vars() -> EnvValues {
    EnvValues {
        telegram_bot_token: None,
        database_url: None,
        turso_auth_token: None,
        sqlite_path: None,
        webhook_url: None,
        webhook_secret: None,
        webhook_host: None,
        webhook_port: None,
        bot_owner_id: None,
        telegram_api_url: None,
    }
}

#[test]
fn test_from_env_values_missing_token() {
    assert!(matches!(
        Config::from_env_values(&no_vars()),
        Err(ConfigError::MissingVar("TELEGRAM_BOT_TOKEN"))
    ));
}

#[test]
fn test_from_env_values_defaults() {
    let mut vars = no_vars();
    vars.telegram_bot_token = Some("tok".to_string());
    let config = Config::from_env_values(&vars).unwrap();
    assert_eq!(config.telegram_bot_token, "tok");
    assert!(matches!(config.database, DatabaseConfig::Sqlite { ref path } if path == "stickerbot.db"));
    assert!(config.webhook.is_none());
    assert_eq!(config.owner_id, None);
}

#[test]
fn test_from_env_values_turso_needs_token() {
    let mut vars = no_vars();
    vars.telegram_bot_token = Some("tok".to_string());
    vars.database_url = Some("libsql://db".to_string());
    assert!(matches!(
        Config::from_env_values(&vars),
        Err(ConfigError::MissingVar("TURSO_AUTH_TOKEN"))
    ));
}

#[test]
fn test_from_env_values_webhook() {
    let mut vars = no_vars();
    vars.telegram_bot_token = Some("tok".to_string());
    vars.webhook_url = Some("https://h/w".to_string());
    assert!(matches!(
        Config::from_env_values(&vars),
        Err(ConfigError::MissingVar("WEBHOOK_SECRET"))
    ));
    vars.webhook_secret = Some("s".to_string());
    vars.webhook_port = Some("not a port".to_string());
    vars.bot_owner_id = Some("-42".to_string());
    let config = Config::from_env_values(&vars).unwrap();
    let webhook = config.webhook.unwrap();
    assert_eq!(webhook.host, "0.0.0.0");
    assert_eq!(webhook.port, 8080);
    assert_eq!(config.owner_id, Some(-42));
    vars.webhook_port = Some("+8443".to_string());
    vars.webhook_host = Some("127.0.0.1".to_string());
    let webhook = Config::from_env_values(&vars).unwrap().webhook.unwrap();
    assert_eq!(webhook.port, 8443);
    assert_eq!(webhook.host, "127.0.0.1");
    vars.webhook_port = Some("70000".to_string());
    assert_eq!(Config::from_env_values(&vars).unwrap().webhook.unwrap().port, 8080);
}

#[test]
fn test_config_error_message() {
    assert_eq!(
        ConfigError::MissingVar("X").message(),
        "Missing required environment variable: X"
    );
    assert_eq!(ConfigError::InvalidValue("bad").message(), "Invalid configuration value: bad");
}

#[test]
fn test_validate_webhook_url_plain_http_refused() {
    let config = Config {
        telegram_bot_token: "valid_token".to_string(),
        database: DatabaseConfig::Sqlite { path: "test.db".to_string() },
        webhook: Some(WebhookConfig {
            url: "http://example.com/webhook".to_string(),
            secret: "a".repeat(32),
            host: "0.0.0.0".to_string(),
            port: 8080,
        }),
        owner_id: None,
        telegram_api_url: None,
    };
    assert!(matches!(config.validate(), Err(ConfigError::InvalidValue("WEBHOOK_URL must start with https://"))));
}

#[test]
fn test_from_env_values_default_port() {
    let mut vars = no_vars();
    vars.telegram_bot_token = Some("tok".to_string());
    vars.webhook_url = Some("https://h/w".to_string());
    vars.webhook_secret = Some("s".repeat(32));
    let config = Config::from_env_values(&vars).unwrap();
    assert!(matches!(&config.database, DatabaseConfig::Sqlite { path } if path == "stickerbot.db"));
    let webhook = config.webhook.unwrap();
    assert_eq!(webhook.host, "0.0.0.0");
    assert_eq!(webhook.port, 8080);
}
