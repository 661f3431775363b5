//! Which credential the A-share data tools use: the one stored in
//! Settings, unless the source is switched off there, else the process
//! environment's.
use vstd::prelude::*;

use crate::text::owned;

verus! {

/// Why no credential can be used while the source is switched off.
pub const DISABLED_MESSAGE: &'static str = "A-share data source is disabled in Settings. Enable it before using A-share data tools.";

/// Why no credential can be used when none is stored.
pub const NOT_CONFIGURED_MESSAGE: &'static str = "A-share data source is not configured. Add credentials in Settings > Data sources.";

/// The credential, or why there is none. `enabled` is the stored
/// setting of the source (none when Settings hold no entry for it),
/// `stored_key` the key stored there (read only when the source is
/// enabled) and `env_token` the environment's token (read only when
/// Settings hold no entry).
pub open spec fn token_choice(enabled: Option<bool>, stored_key: Option<Seq<char>>, env_token: Option<Seq<char>>) -> Result<Seq<char>, Seq<char>> {
    match enabled {
        Some(false) => Err(DISABLED_MESSAGE@),
        Some(true) => match stored_key {
            Some(k) => Ok(k),
            None => Err(NOT_CONFIGURED_MESSAGE@),
        },
        None => match env_token {
            Some(t) => Ok(t),
            None => Err(NOT_CONFIGURED_MESSAGE@),
        },
    }
}

/// Picks the credential.
pub fn resolve_tushare_token(enabled: Option<bool>, stored_key: Option<String>, env_token: Option<String>) -> (r: Result<String, String>)
    ensures
        match token_choice(
            enabled,
            match stored_key {
                Some(k) => Some(k@),
                None => None,
            },
            match env_token {
                Some(t) => Some(t@),
                None => None,
            },
        ) {
            Ok(t) => r matches Ok(s) && s@ == t,
            Err(m) => r matches Err(e) && e@ == m,
        },
{
    match enabled {
        Some(false) => Err(owned(DISABLED_MESSAGE)),
        Some(true) => match stored_key {
            Some(k) => Ok(k),
            None => Err(owned(NOT_CONFIGURED_MESSAGE)),
        },
        None => match env_token {
            Some(t) => Ok(t),
            None => Err(owned(NOT_CONFIGURED_MESSAGE)),
        },
    }
}

/// A stored key wins over the environment's token, and a source that is
/// switched off gets neither.
pub proof fn lemma_settings_override_environment(stored: Seq<char>, env: Option<Seq<char>>)
    ensures
        token_choice(Some(true), Some(stored), env) == Ok::<Seq<char>, Seq<char>>(stored),
        token_choice(Some(false), Some(stored), env) is Err,
{
}

} // verus!
