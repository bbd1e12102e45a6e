pub mod add;
pub mod background;
pub mod checks;
pub mod config;
pub mod dotfiles;
pub mod error;
pub mod install;
pub mod launch;
pub mod license;
pub mod new;
pub mod plan;
pub mod screen;
pub mod shot;
pub mod text;
pub mod update;
pub mod workflow;

use vstd::prelude::*;
use vstd::string::*;

use crate::error::Error;

verus! {

/// The value that a flag-or-configuration chain settles on: the flag's
/// value when one was given, and the configured default otherwise.
pub open spec fn pick<T>(value: Option<T>, default: Option<T>) -> Option<T> {
    if value is Some {
        value
    } else {
        default
    }
}

/// Picks the flag value, then the configuration default, and otherwise
/// reports the configuration key `config_value` as missing.
pub fn value_or_default<T>(value: Option<T>, default: Option<T>, config_value: &str) -> (r: Result<
    T,
    Error,
>)
    ensures
        value matches Some(v) ==> r == Ok::<T, Error>(v),
        value is None ==> (default matches Some(d) ==> r == Ok::<T, Error>(d)),
        value is None && default is None ==> (r matches Err(e) && e.is_missing_config(
            config_value@,
        )),
{
    if let Some(v) = value {
        Ok(v)
    } else if let Some(d) = default {
        Ok(d)
    } else {
        Err(Error::MissingConfig { key: String::from_str(config_value) })
    }
}

/// Picks the flag values when any were given, then the configuration
/// defaults, and otherwise reports the key `config_value` as missing.
pub fn values_or_default<T>(value: Vec<T>, default: Vec<T>, config_value: &str) -> (r: Result<
    Vec<T>,
    Error,
>)
    ensures
        value@.len() > 0 ==> (r matches Ok(v) && v == value),
        value@.len() == 0 && default@.len() > 0 ==> (r matches Ok(v) && v == default),
        value@.len() == 0 && default@.len() == 0 ==> (r matches Err(e) && e.is_missing_config(
            config_value@,
        )),
{
    if value.len() > 0 {
        Ok(value)
    } else if default.len() > 0 {
        Ok(default)
    } else {
        Err(Error::MissingConfig { key: String::from_str(config_value) })
    }
}

/// Picks the program named by the flag, then the configured default, and
/// otherwise reports the configuration key `config_value` as missing.
pub fn program_or_default(
    program: Option<String>,
    default: Option<String>,
    config_value: &str,
) -> (r: Result<String, Error>)
    ensures
        program matches Some(p) ==> r == Ok::<String, Error>(p),
        program is None ==> (default matches Some(d) ==> r == Ok::<String, Error>(d)),
        program is None && default is None ==> (r matches Err(e) && e.is_missing_config(
            config_value@,
        )),
{
    value_or_default(program, default, config_value)
}

} // verus!
