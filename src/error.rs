//! What can stop a dispatch. None of these is recovered from: each ends the
//! invocation.

use vstd::prelude::*;

verus! {

/// Configuration that the dispatch cannot run without.
pub enum ConfigurationError {
    /// No deployment region could be found.
    MissingRegion,
    /// The environment variable of this name is not set.
    MissingVariable(String),
}

/// Why a dispatch failed.
pub enum DispatchError {
    /// Region or destination identifiers are missing; nothing was sent.
    Configuration(ConfigurationError),
    /// No credentials, or the signer refused the request; nothing was sent.
    Signing,
    /// The request could not be delivered or its answer not read.
    Transport(String),
    /// The service answered with a status outside 200 to 299.
    ServiceRejection { status: u16, body: String },
}

} // verus!
