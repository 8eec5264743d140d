//! Errors of configuration.
use vstd::prelude::*;

verus! {

pub enum ConfigError {
    /// No credentials are stored for the named platform.
    CredentialsNotFound { platform: String },
}

} // verus!
