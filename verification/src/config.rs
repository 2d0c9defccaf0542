//! What the deployment configures: the two signing secrets, the lifetimes
//! of the two kinds of token, and the two API keys.
//!
//! The settings are read once, when the process starts, and handed on by
//! reference. A secret or key that is not set is an error then, not later.

use crate::claims::fits_i64;
use crate::text::parse_i64;
use crate::text::parsed_int;
use crate::text::same_text;
use crate::token::DEFAULT_ACCESS_TTL_MINUTES;
use crate::token::DEFAULT_REFRESH_TTL_HOURS;
use vstd::prelude::*;

verus! {

/// The settings as the environment gives them: each one a text, or not set.
#[derive(Debug, Clone)]
pub struct AuthSettings {
    /// `JWT_AC_KEY`
    pub access_secret: Option<String>,
    /// `JWT_RF_KEY`
    pub refresh_secret: Option<String>,
    /// `JWT_AC_EXPIRE`, in minutes
    pub access_ttl_minutes: Option<String>,
    /// `JWT_RF_EXPIRE`, in hours
    pub refresh_ttl_hours: Option<String>,
    /// `TK_PUBLIC_KEY`
    pub public_key: Option<String>,
    /// `TK_TELE_PUBLIC_KEY`
    pub tele_public_key: Option<String>,
}

/// The configuration of the authentication core.
///
/// The two secrets differ: access tokens and refresh tokens are never
/// signed under one secret, so that a secret that leaks opens one kind of
/// token only. A configuration is made by [`AuthConfig::from_settings`]
/// and in no other way. It is not printed and not copied: it holds secrets.
pub struct AuthConfig {
    access_secret: String,
    refresh_secret: String,
    access_ttl_minutes: i64,
    refresh_ttl_hours: i64,
    public_key: String,
    tele_public_key: String,
}

/// A configuration, as mathematical values.
pub struct AuthConfigView {
    pub access_secret: Seq<char>,
    pub refresh_secret: Seq<char>,
    pub access_ttl_minutes: int,
    pub refresh_ttl_hours: int,
    pub public_key: Seq<char>,
    pub tele_public_key: Seq<char>,
}

impl View for AuthConfig {
    type V = AuthConfigView;

    closed spec fn view(&self) -> AuthConfigView {
        AuthConfigView {
            access_secret: self.access_secret@,
            refresh_secret: self.refresh_secret@,
            access_ttl_minutes: self.access_ttl_minutes as int,
            refresh_ttl_hours: self.refresh_ttl_hours as int,
            public_key: self.public_key@,
            tele_public_key: self.tele_public_key@,
        }
    }
}

/// Why the settings make no configuration.
#[derive(Debug, Clone, Copy, PartialEq, Eq, Structural)]
pub enum ConfigError {
    /// `JWT_AC_KEY` is not set.
    MissingAccessSecret,
    /// `JWT_RF_KEY` is not set.
    MissingRefreshSecret,
    /// `TK_PUBLIC_KEY` is not set.
    MissingPublicKey,
    /// `TK_TELE_PUBLIC_KEY` is not set.
    MissingTelePublicKey,
    /// Access and refresh tokens would be signed under one secret.
    SecretsNotDistinct,
}

/// The characters of a setting, where it is set.
pub open spec fn setting_text(setting: Option<String>) -> Option<Seq<char>> {
    match setting {
        Some(text) => Some(text@),
        None => None,
    }
}

/// The lifetime that a setting gives: the integer it stands for, or
/// `default` where it is not set or stands for none that an `i64` holds.
pub open spec fn lifetime_of(setting: Option<Seq<char>>, default: int) -> int {
    match setting {
        Some(text) => match parsed_int(text) {
            Some(value) => if fits_i64(value) {
                value
            } else {
                default
            },
            None => default,
        },
        None => default,
    }
}

/// The lifetime that a setting gives.
pub fn lifetime_setting(setting: &Option<String>, default: i64) -> (lifetime: i64)
    ensures
        lifetime == lifetime_of(setting_text(*setting), default as int),
{
    match setting {
        Some(text) => match parse_i64(text.as_str()) {
            Some(value) => value,
            None => default,
        },
        None => default,
    }
}

impl AuthConfig {
    /// The two kinds of token are signed under different secrets.
    #[verifier::type_invariant]
    spec fn secrets_differ(&self) -> bool {
        self.access_secret@ != self.refresh_secret@
    }

    /// The secret of access tokens. It is not the secret of refresh tokens.
    pub fn access_secret(&self) -> (secret: &str)
        ensures
            secret@ == self@.access_secret,
            secret@ != self@.refresh_secret,
    {
        proof {
            use_type_invariant(self);
        }
        self.access_secret.as_str()
    }

    /// The secret of refresh tokens. It is not the secret of access tokens.
    pub fn refresh_secret(&self) -> (secret: &str)
        ensures
            secret@ == self@.refresh_secret,
            secret@ != self@.access_secret,
    {
        proof {
            use_type_invariant(self);
        }
        self.refresh_secret.as_str()
    }

    /// The minutes that an access token lives.
    pub fn access_ttl_minutes(&self) -> (minutes: i64)
        ensures
            minutes == self@.access_ttl_minutes,
    {
        self.access_ttl_minutes
    }

    /// The hours that a refresh token lives.
    pub fn refresh_ttl_hours(&self) -> (hours: i64)
        ensures
            hours == self@.refresh_ttl_hours,
    {
        self.refresh_ttl_hours
    }

    /// The public API key.
    pub fn public_key(&self) -> (key: &str)
        ensures
            key@ == self@.public_key,
    {
        self.public_key.as_str()
    }

    /// The telemedicine API key.
    pub fn tele_public_key(&self) -> (key: &str)
        ensures
            key@ == self@.tele_public_key,
    {
        self.tele_public_key.as_str()
    }

    /// What the settings give: the first thing that is wrong with them, if
    /// anything is.
    pub open spec fn fault(settings: AuthSettings) -> Option<ConfigError> {
        if settings.access_secret is None {
            Some(ConfigError::MissingAccessSecret)
        } else if settings.refresh_secret is None {
            Some(ConfigError::MissingRefreshSecret)
        } else if settings.public_key is None {
            Some(ConfigError::MissingPublicKey)
        } else if settings.tele_public_key is None {
            Some(ConfigError::MissingTelePublicKey)
        } else if settings.access_secret->0@ == settings.refresh_secret->0@ {
            Some(ConfigError::SecretsNotDistinct)
        } else {
            None
        }
    }

    /// What the settings configure, where nothing is wrong with them. A
    /// lifetime that is not set, or is no number that an `i64` holds, is 90
    /// minutes for access tokens and 720 hours for refresh tokens.
    pub open spec fn configured(settings: AuthSettings) -> AuthConfigView {
        AuthConfigView {
            access_secret: settings.access_secret->0@,
            refresh_secret: settings.refresh_secret->0@,
            access_ttl_minutes: lifetime_of(
                setting_text(settings.access_ttl_minutes),
                DEFAULT_ACCESS_TTL_MINUTES as int,
            ),
            refresh_ttl_hours: lifetime_of(
                setting_text(settings.refresh_ttl_hours),
                DEFAULT_REFRESH_TTL_HOURS as int,
            ),
            public_key: settings.public_key->0@,
            tele_public_key: settings.tele_public_key->0@,
        }
    }

    /// The configuration that the settings give.
    ///
    /// The secrets and keys must be set, and the two secrets must differ. A
    /// lifetime that is not set, or is no number, is 90 minutes for access
    /// tokens and 720 hours for refresh tokens.
    pub fn from_settings(settings: AuthSettings) -> (made: Result<AuthConfig, ConfigError>)
        ensures
            match AuthConfig::fault(settings) {
                Some(error) => made == Err::<AuthConfig, ConfigError>(error),
                None => made is Ok && made->Ok_0@ == AuthConfig::configured(settings),
            },
    {
        let access_ttl_minutes = lifetime_setting(
            &settings.access_ttl_minutes,
            DEFAULT_ACCESS_TTL_MINUTES,
        );
        let refresh_ttl_hours = lifetime_setting(
            &settings.refresh_ttl_hours,
            DEFAULT_REFRESH_TTL_HOURS,
        );
        let access_secret = match settings.access_secret {
            Some(text) => text,
            None => {
                return Err(ConfigError::MissingAccessSecret);
            },
        };
        let refresh_secret = match settings.refresh_secret {
            Some(text) => text,
            None => {
                return Err(ConfigError::MissingRefreshSecret);
            },
        };
        let public_key = match settings.public_key {
            Some(text) => text,
            None => {
                return Err(ConfigError::MissingPublicKey);
            },
        };
        let tele_public_key = match settings.tele_public_key {
            Some(text) => text,
            None => {
                return Err(ConfigError::MissingTelePublicKey);
            },
        };
        if same_text(access_secret.as_str(), refresh_secret.as_str()) {
            return Err(ConfigError::SecretsNotDistinct);
        }
        Ok(
            AuthConfig {
                access_secret,
                refresh_secret,
                access_ttl_minutes,
                refresh_ttl_hours,
                public_key,
                tele_public_key,
            },
        )
    }
}

/// The message of a configuration error: which setting must be set.
pub fn config_error_message(error: ConfigError) -> (message: &'static str)
    ensures
        message@ == match error {
            ConfigError::MissingAccessSecret => "JWT_AC_KEY must be set"@,
            ConfigError::MissingRefreshSecret => "JWT_RF_KEY must be set"@,
            ConfigError::MissingPublicKey => "TK_PUBLIC_KEY must be set"@,
            ConfigError::MissingTelePublicKey => "TK_TELE_PUBLIC_KEY must be set"@,
            ConfigError::SecretsNotDistinct => "JWT_AC_KEY and JWT_RF_KEY must differ"@,
        },
{
    match error {
        ConfigError::MissingAccessSecret => "JWT_AC_KEY must be set",
        ConfigError::MissingRefreshSecret => "JWT_RF_KEY must be set",
        ConfigError::MissingPublicKey => "TK_PUBLIC_KEY must be set",
        ConfigError::MissingTelePublicKey => "TK_TELE_PUBLIC_KEY must be set",
        ConfigError::SecretsNotDistinct => "JWT_AC_KEY and JWT_RF_KEY must differ",
    }
}

} // verus!
