//! The error taxonomy of the mirror's own logic.
//!
//! Network, terminal and filesystem failures are surfaced by the surrounding
//! binary; the library itself only reports configuration and credential
//! problems, which its functions decide from plain values.

use vstd::prelude::*;

verus! {

/// A configuration value could not be resolved.
#[derive(Clone, Copy, Debug, PartialEq, Eq, Structural)]
pub enum ConfigError {
    /// A `~`-prefixed SSH key path was given but no home directory is known.
    HomeDirUnavailable,
    /// An access-level number fell outside the ordinal scale.
    /// Unreachable after clamping; kept so the cast can be total.
    InvalidAccessLevel,
}

/// A credential request from the clone transport could not be served.
#[derive(Clone, Copy, Debug, PartialEq, Eq, Structural)]
pub enum CredentialError {
    /// SSH-key authentication was requested but the remote URL carries no
    /// username component.
    NoUsernameInUrl,
    /// The transport asked for a credential type the mirror does not offer.
    UnsupportedCredentialType,
}

impl ConfigError {
    /// A human-readable description, for the binary to print.
    pub fn text(&self) -> (r: &'static str)
        ensures
            *self is HomeDirUnavailable ==> r@ == "Can't find home directory to locate SSH private key"@,
            *self is InvalidAccessLevel ==> r@ == "Casting AccessLevel from invalid number."@,
    {
        match self {
            ConfigError::HomeDirUnavailable => "Can't find home directory to locate SSH private key",
            ConfigError::InvalidAccessLevel => "Casting AccessLevel from invalid number.",
        }
    }
}

impl CredentialError {
    /// A human-readable description, for the binary to print.
    pub fn text(&self) -> (r: &'static str)
        ensures
            *self is NoUsernameInUrl ==> r@ == "No username in URL for SSH"@,
            *self is UnsupportedCredentialType ==> r@ == "Unsupported requested credential type"@,
    {
        match self {
            CredentialError::NoUsernameInUrl => "No username in URL for SSH",
            CredentialError::UnsupportedCredentialType => "Unsupported requested credential type",
        }
    }
}

} // verus!
