//! Reading server configuration values: what a missing or malformed value
//! stands for.

use vstd::prelude::*;

use super::models::AuthMethodsConfig;

verus! {

/// The outcome of reading a configuration value from the database and
/// decoding it.
#[derive(Debug, Clone)]
pub enum ConfigRead<T> {
    /// The value was found and decoded.
    Decoded(T),
    /// The value was found but has another shape than expected.
    Malformed,
    /// No row holds the key.
    Missing,
    /// The database could not be read; the message says why.
    Failed(String),
}

/// The allowed login methods: the stored setting, or the defaults (local
/// login only) when it is missing or malformed; a failed read stays an error.
pub fn auth_methods_allowed(read: ConfigRead<AuthMethodsConfig>) -> (r: Result<
    AuthMethodsConfig,
    String,
>)
    ensures
        match read {
            ConfigRead::Decoded(c) => r == Ok::<AuthMethodsConfig, String>(c),
            ConfigRead::Failed(m) => r matches Err(e) && e@ == m@,
            _ => r matches Ok(c) && c.local && !c.oidc,
        },
{
    match read {
        ConfigRead::Decoded(c) => Ok(c),
        ConfigRead::Failed(m) => Err(m),
        _ => Ok(AuthMethodsConfig { local: true, oidc: false }),
    }
}

/// Whether first-run setup is complete, from the read of the stored flag:
/// `Some(b)` when the value is a boolean, `None` when it is another JSON
/// value (then setup counts as not complete); a failed read stays an error.
pub fn setup_complete<E>(read: Result<Option<bool>, E>) -> (r: Result<bool, E>)
    ensures
        match read {
            Ok(Some(b)) => r matches Ok(x) && x == b,
            Ok(None) => r matches Ok(x) && !x,
            Err(e) => r matches Err(x) && x == e,
        },
{
    match read {
        Ok(Some(b)) => Ok(b),
        Ok(None) => Ok(false),
        Err(e) => Err(e),
    }
}

} // verus!
