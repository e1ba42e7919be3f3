//! Configuration of the bot: its values, how they are built from the
//! environment's variables, and their validation.

use vstd::prelude::*;
use vstd::utf8::encode_utf8;
use crate::text::{has_prefix, parse_i64, parse_i64_spec, parse_u16, parse_unsigned, starts_with};

verus! {

/// Configuration error types.
#[derive(Debug)]
pub enum ConfigError {
    /// A required environment variable is missing.
    MissingVar(&'static str),
    /// A configuration value is invalid.
    InvalidValue(&'static str),
}

impl ConfigError {
    /// The message the error is shown with.
    pub fn message(&self) -> (r: String)
        ensures
            r@ == match self {
                ConfigError::MissingVar(v) => "Missing required environment variable: "@ + v@,
                ConfigError::InvalidValue(v) => "Invalid configuration value: "@ + v@,
            },
    {
        let mut r = String::new();
        match self {
            ConfigError::MissingVar(v) => {
                crate::text::push_str(&mut r, "Missing required environment variable: ");
                crate::text::push_str(&mut r, v);
            },
            ConfigError::InvalidValue(v) => {
                crate::text::push_str(&mut r, "Invalid configuration value: ");
                crate::text::push_str(&mut r, v);
            },
        }
        r
    }
}

/// Webhook configuration for HTTP callback mode.
#[derive(Debug)]
pub struct WebhookConfig {
    /// Webhook URL (must start with https://)
    pub url: String,
    /// Secret token for request validation (at least 32 bytes)
    pub secret: String,
    /// Host to bind the webhook server
    pub host: String,
    /// Port to bind the webhook server
    pub port: u16,
}

/// Main configuration struct containing all bot settings.
#[derive(Debug)]
pub struct Config {
    /// Telegram bot API token.
    pub telegram_bot_token: String,
    /// Database configuration.
    pub database: DatabaseConfig,
    /// Webhook configuration (optional, enables webhook mode when present).
    pub webhook: Option<WebhookConfig>,
    /// Telegram ID of the bot owner (optional, for admin commands).
    pub owner_id: Option<i64>,
    /// Custom Telegram Bot API URL (for self-hosted servers).
    pub telegram_api_url: Option<String>,
}

/// Database configuration supporting Turso (remote) or SQLite (local) backends.
#[derive(Debug)]
pub enum DatabaseConfig {
    /// Turso remote database configuration.
    Turso {
        /// Turso connection URL.
        url: String,
        /// Turso authentication token.
        auth_token: String,
    },
    /// Local SQLite database configuration.
    Sqlite {
        /// Path to the SQLite database file.
        path: String,
    },
}

/// The values of the environment variables the configuration is read from;
/// `None` where a variable is not set (or is not valid Unicode).
pub struct EnvValues {
    pub telegram_bot_token: Option<String>,
    pub database_url: Option<String>,
    pub turso_auth_token: Option<String>,
    pub sqlite_path: Option<String>,
    pub webhook_url: Option<String>,
    pub webhook_secret: Option<String>,
    pub webhook_host: Option<String>,
    pub webhook_port: Option<String>,
    pub bot_owner_id: Option<String>,
    pub telegram_api_url: Option<String>,
}

/// Default SQLite path when `SQLITE_PATH` is not set.
pub open spec fn default_sqlite_path() -> Seq<char> {
    "stickerbot.db"@
}

/// Default webhook host when `WEBHOOK_HOST` is not set.
pub open spec fn default_webhook_host() -> Seq<char> {
    "0.0.0.0"@
}

/// Port used when `WEBHOOK_PORT` is missing or not a valid port number.
pub const DEFAULT_WEBHOOK_PORT: u16 = 8080;

/// The port a `WEBHOOK_PORT` value gives.
pub open spec fn port_from(v: Option<String>) -> u16 {
    match v {
        Some(s) => match parse_unsigned(s@, u16::MAX as nat) {
            Some(p) => p as u16,
            None => DEFAULT_WEBHOOK_PORT,
        },
        None => DEFAULT_WEBHOOK_PORT,
    }
}

/// The owner id a `BOT_OWNER_ID` value gives.
pub open spec fn owner_from(v: Option<String>) -> Option<i64> {
    match v {
        Some(s) => match parse_i64_spec(s@) {
            Some(i) => Some(i as i64),
            None => None,
        },
        None => None,
    }
}

/// The first validation failure of a configuration, in the order the checks run.
pub open spec fn validation_failure(c: Config) -> Option<Seq<char>> {
    if c.telegram_bot_token@.len() == 0 {
        Some("TELEGRAM_BOT_TOKEN cannot be empty"@)
    } else if c.database matches DatabaseConfig::Turso { url, auth_token }
        && !has_prefix(url@, "libsql://"@) && !has_prefix(url@, "http"@) {
        Some("DATABASE_URL must be a valid Turso URL"@)
    } else if c.database matches DatabaseConfig::Turso { url, auth_token } && auth_token@.len() == 0 {
        Some("TURSO_AUTH_TOKEN cannot be empty for Turso database"@)
    } else if c.webhook matches Some(w)
        && !has_prefix(w.url@, "https://"@) {
        Some("WEBHOOK_URL must start with https://"@)
    } else if c.webhook matches Some(w) && (encode_utf8(w.secret@).len() as usize) < 32 {
        Some("WEBHOOK_SECRET must be at least 32 characters"@)
    } else {
        None
    }
}

fn clone_opt(s: &Option<String>) -> (r: Option<String>)
    ensures
        r == *s,
{
    crate::db::schema::clone_opt_string(s)
}

impl Config {
    /// Builds the configuration from the values of the environment variables
    /// `TELEGRAM_BOT_TOKEN`, `DATABASE_URL`, `TURSO_AUTH_TOKEN`, `SQLITE_PATH`,
    /// `WEBHOOK_URL`, `WEBHOOK_SECRET`, `WEBHOOK_HOST`, `WEBHOOK_PORT`,
    /// `BOT_OWNER_ID` and `TELEGRAM_API_URL`.
    pub fn from_env_values(vars: &EnvValues) -> (r: Result<Config, ConfigError>)
        ensures
            vars.telegram_bot_token is None ==> (r matches Err(ConfigError::MissingVar(v)) && v@ == "TELEGRAM_BOT_TOKEN"@),
            vars.telegram_bot_token is Some && vars.database_url is Some && vars.turso_auth_token is None
                ==> (r matches Err(ConfigError::MissingVar(v)) && v@ == "TURSO_AUTH_TOKEN"@),
            vars.telegram_bot_token is Some && !(vars.database_url is Some && vars.turso_auth_token is None)
                && vars.webhook_url is Some && vars.webhook_secret is None
                ==> (r matches Err(ConfigError::MissingVar(v)) && v@ == "WEBHOOK_SECRET"@),
            vars.telegram_bot_token is Some && !(vars.database_url is Some && vars.turso_auth_token is None)
                && !(vars.webhook_url is Some && vars.webhook_secret is None) ==> (r matches Ok(c) && {
                &&& Some(c.telegram_bot_token) == vars.telegram_bot_token
                &&& match vars.database_url {
                    Some(url) => c.database == DatabaseConfig::Turso { url, auth_token: vars.turso_auth_token->0 },
                    None => (c.database matches DatabaseConfig::Sqlite { path } && path@ == match vars.sqlite_path {
                        Some(p) => p@,
                        None => default_sqlite_path(),
                    }),
                }
                &&& match vars.webhook_url {
                    Some(url) => (c.webhook matches Some(w) && w.url == url && w.secret == vars.webhook_secret->0
                        && w.host@ == match vars.webhook_host {
                            Some(h) => h@,
                            None => default_webhook_host(),
                        }
                        && w.port == port_from(vars.webhook_port)),
                    None => c.webhook is None,
                }
                &&& c.owner_id == owner_from(vars.bot_owner_id)
                &&& c.telegram_api_url == vars.telegram_api_url
            }),
    {
        let telegram_bot_token = match &vars.telegram_bot_token {
            Some(t) => t.clone(),
            None => return Err(ConfigError::MissingVar("TELEGRAM_BOT_TOKEN")),
        };
        let database = match &vars.database_url {
            Some(url) => {
                let auth_token = match &vars.turso_auth_token {
                    Some(a) => a.clone(),
                    None => return Err(ConfigError::MissingVar("TURSO_AUTH_TOKEN")),
                };
                DatabaseConfig::Turso { url: url.clone(), auth_token }
            },
            None => {
                let path = match &vars.sqlite_path {
                    Some(p) => p.clone(),
                    None => crate::text::owned("stickerbot.db"),
                };
                DatabaseConfig::Sqlite { path }
            },
        };
        let webhook = match &vars.webhook_url {
            Some(url) => {
                let secret = match &vars.webhook_secret {
                    Some(s) => s.clone(),
                    None => return Err(ConfigError::MissingVar("WEBHOOK_SECRET")),
                };
                let host = match &vars.webhook_host {
                    Some(h) => h.clone(),
                    None => crate::text::owned("0.0.0.0"),
                };
                let port = match &vars.webhook_port {
                    Some(p) => match parse_u16(p.as_str()) {
                        Some(n) => n,
                        None => DEFAULT_WEBHOOK_PORT,
                    },
                    None => DEFAULT_WEBHOOK_PORT,
                };
                Some(WebhookConfig { url: url.clone(), secret, host, port })
            },
            None => None,
        };
        let owner_id = match &vars.bot_owner_id {
            Some(v) => parse_i64(v.as_str()),
            None => None,
        };
        let telegram_api_url = clone_opt(&vars.telegram_api_url);
        Ok(Config { telegram_bot_token, database, webhook, owner_id, telegram_api_url })
    }

    /// Validates the configuration values.
    ///
    /// Returns `ConfigError::InvalidValue` if the bot token is empty, the Turso
    /// URL does not start with `libsql://` or `http`, the Turso token is empty,
    /// the webhook URL does not start with `https://`, or the
    /// webhook secret is shorter than 32 bytes; the first of these that holds
    /// is reported.
    pub fn validate(&self) -> (r: Result<(), ConfigError>)
        ensures
            match validation_failure(*self) {
                Some(m) => (r matches Err(ConfigError::InvalidValue(v)) && v@ == m),
                None => r is Ok,
            },
    {
        if self.telegram_bot_token.as_str().is_empty() {
            return Err(ConfigError::InvalidValue("TELEGRAM_BOT_TOKEN cannot be empty"));
        }
        if let DatabaseConfig::Turso { url, auth_token } = &self.database {
            if !starts_with(url.as_str(), "libsql://") && !starts_with(url.as_str(), "http") {
                return Err(ConfigError::InvalidValue("DATABASE_URL must be a valid Turso URL"));
            }
            if auth_token.as_str().is_empty() {
                return Err(ConfigError::InvalidValue("TURSO_AUTH_TOKEN cannot be empty for Turso database"));
            }
        }
        if let Some(webhook) = &self.webhook {
            if !starts_with(webhook.url.as_str(), "https://") {
                return Err(ConfigError::InvalidValue("WEBHOOK_URL must start with https://"));
            }
            if webhook.secret.as_str().len() < 32 {
                return Err(ConfigError::InvalidValue("WEBHOOK_SECRET must be at least 32 characters"));
            }
        }
        Ok(())
    }
}


/// A `BOT_OWNER_ID` holding the decimal rendering of any `i64` (with a `-`
/// for a negative one) makes that number the bot's owner.
pub proof fn law_owner_id_read_back(s: String, v: i64)
    requires
        s@ == crate::text::int_decimal(v as int),
    ensures
        owner_from(Some(s)) == Some(v),
{
    let d = s@;
    if v < 0 {
        let n: nat = (-(v as int)) as nat;
        crate::text::lemma_nat_decimal(n);
        crate::service::naming::lemma_parse_decimal(n, 0x8000_0000_0000_0000);
        assert(d.drop_first() =~= crate::text::nat_decimal(n));
        assert(crate::text::is_digit(crate::text::nat_decimal(n)[0]));
    } else {
        let n: nat = v as nat;
        crate::text::lemma_nat_decimal(n);
        crate::service::naming::lemma_parse_decimal(n, 0x7fff_ffff_ffff_ffff);
        assert(crate::text::is_digit(d[0]));
    }
}

} // verus!
