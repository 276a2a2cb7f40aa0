//! The persisted configuration record.

use vstd::prelude::*;

verus! {

/// The configuration persisted between runs.  One field is recognized:
/// the API key used for rewrite requests.  An empty key means the key
/// has not been configured yet, which sends the session to setup mode.
#[derive(Debug, Clone)]
pub struct Config {
    pub api_key: String,
}

impl Config {
    /// The fallback configuration when no stored record exists or the
    /// stored record cannot be read: an empty API key.
    pub fn default() -> (c: Config)
        ensures
            c.api_key@ == Seq::<char>::empty(),
    {
        Config { api_key: String::new() }
    }
}

} // verus!
