//! The rules that a loaded configuration must satisfy before it is used.

use vstd::prelude::*;
use vstd::string::*;
use vstd::utf8::*;
use crate::configuration::schema::Config;
use crate::text::{all_white_space, is_blank, is_white_space};

verus! {

/// Why a configuration was refused.
#[derive(Debug)]
pub enum ConfigError {
    /// The named field holds nothing but white space.
    Blank(String),
    /// `auth.secret` is shorter than 32 bytes.
    SecretTooShort,
}

/// Length in bytes of the UTF-8 encoding of `s` (what `str::len` returns).
pub open spec fn utf8_len(s: Seq<char>) -> nat {
    encode_utf8(s).len()
}

/// The least number of bytes an authentication secret must have.
pub const MIN_SECRET_BYTES: usize = 32;

/// The first field, in checking order, that is blank.
pub open spec fn first_blank_field(c: Config) -> Option<Seq<char>> {
    if all_white_space(c.primary.env@) {
        Some("primary.env"@)
    } else if all_white_space(c.primary.name@) {
        Some("primary.name"@)
    } else if all_white_space(c.store.url@) {
        Some("store.url"@)
    } else if all_white_space(c.auth.secret@) {
        Some("auth.secret"@)
    } else if all_white_space(c.auth.base_url@) {
        Some("auth.base_url"@)
    } else if all_white_space(c.auth.path_prefix@) {
        Some("auth.path_prefix"@)
    } else {
        None
    }
}

/// The authentication secret is long enough.
pub open spec fn secret_long_enough(c: Config) -> bool {
    utf8_len(c.auth.secret@) >= MIN_SECRET_BYTES
}

/// A configuration that every rule accepts.
pub open spec fn config_is_valid(c: Config) -> bool {
    first_blank_field(c) is None && secret_long_enough(c)
}

/// `e` is the refusal that the rules give `c`: the first blank field by
/// name, else a secret that is too short.
pub open spec fn is_refusal_of(e: ConfigError, c: Config) -> bool {
    match e {
        ConfigError::Blank(f) => first_blank_field(c) == Some(f@),
        ConfigError::SecretTooShort => first_blank_field(c) is None && !secret_long_enough(c),
    }
}

/// Refuses a value that is empty or all white space, naming the field.
pub fn ensure_not_blank(value: &str, field: &str) -> (r: Result<(), ConfigError>)
    ensures
        match r {
            Ok(()) => !all_white_space(value@),
            Err(ConfigError::Blank(f)) => all_white_space(value@) && f@ == field@,
            Err(ConfigError::SecretTooShort) => false,
        },
{
    if is_blank(value) {
        return Err(ConfigError::Blank(field.to_owned()));
    }
    Ok(())
}

/// Checks, in order, that the identity, database URL and authentication
/// settings are not blank and that the secret has at least 32 bytes.
pub fn validate_configuration(config: &Config) -> (r: Result<(), ConfigError>)
    ensures
        match r {
            Ok(()) => config_is_valid(*config),
            Err(e) => is_refusal_of(e, *config),
        },
{
    proof {
        reveal_strlit("primary.env");
        reveal_strlit("primary.name");
        reveal_strlit("store.url");
        reveal_strlit("auth.secret");
        reveal_strlit("auth.base_url");
        reveal_strlit("auth.path_prefix");
    }
    ensure_not_blank(config.primary.env.as_str(), "primary.env")?;
    ensure_not_blank(config.primary.name.as_str(), "primary.name")?;
    ensure_not_blank(config.store.url.as_str(), "store.url")?;
    ensure_not_blank(config.auth.secret.as_str(), "auth.secret")?;
    ensure_not_blank(config.auth.base_url.as_str(), "auth.base_url")?;
    ensure_not_blank(config.auth.path_prefix.as_str(), "auth.path_prefix")?;
    if config.auth.secret.as_str().as_bytes().len() < MIN_SECRET_BYTES {
        return Err(ConfigError::SecretTooShort);
    }
    Ok(())
}

impl ConfigError {
    /// The human-readable message for this refusal.
    pub fn message(&self) -> (m: String)
        ensures
            match self {
                ConfigError::Blank(f) => m@ == f@ + " cannot be blank"@,
                ConfigError::SecretTooShort => m@
                    == "auth.secret must be at least 32 characters long"@,
            },
    {
        match self {
            ConfigError::Blank(f) => {
                let mut m = f.clone();
                m.append(" cannot be blank");
                m
            },
            ConfigError::SecretTooShort => "auth.secret must be at least 32 characters long".to_owned(),
        }
    }
}


/// A configuration is valid exactly when each of `primary.env`,
/// `primary.name`, `store.url`, `auth.secret`, `auth.base_url` and
/// `auth.path_prefix` holds a character that is not white space and the
/// secret takes at least 32 bytes in UTF-8.
pub proof fn law_valid_means_filled_fields(c: Config)
    ensures
        config_is_valid(c) <==> {
            &&& exists|i: int| 0 <= i < c.primary.env@.len() && !is_white_space(c.primary.env@[i])
            &&& exists|i: int| 0 <= i < c.primary.name@.len() && !is_white_space(c.primary.name@[i])
            &&& exists|i: int| 0 <= i < c.store.url@.len() && !is_white_space(c.store.url@[i])
            &&& exists|i: int| 0 <= i < c.auth.secret@.len() && !is_white_space(c.auth.secret@[i])
            &&& exists|i: int| 0 <= i < c.auth.base_url@.len() && !is_white_space(c.auth.base_url@[i])
            &&& exists|i: int| 0 <= i < c.auth.path_prefix@.len() && !is_white_space(
                c.auth.path_prefix@[i],
            )
            &&& encode_utf8(c.auth.secret@).len() >= 32
        },
{
}

} // verus!
