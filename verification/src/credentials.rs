//! Credential resolution: expansion of a `~`-prefixed SSH key path, and the
//! per-request decision which credential to offer the clone transport.
//!
//! The transport calls back once per authentication attempt with the set of
//! credential types it accepts; [`credential_for`] answers from plain values
//! and never touches the network, so the negotiation can be checked against a
//! fake transport.

use vstd::prelude::*;
use crate::errors::{ConfigError, CredentialError};
use crate::model::User;

verus! {

/// The credential types the clone transport says it accepts.
#[derive(Debug, Clone, Copy, PartialEq, Eq, Structural)]
pub struct AllowedCredentialTypes {
    pub user_pass_plaintext: bool,
    pub ssh_key: bool,
}

/// A credential the mirror offers to the transport.
#[derive(Debug, Clone, PartialEq, Eq)]
pub enum Credential {
    /// Plaintext authentication: the resolved username and the personal
    /// access token as the password.
    UserPass { username: String, password: String },
    /// Public-key authentication: the username the transport resolved from
    /// the remote URL, and the resolved private-key path (no passphrase).
    SshKey { username: String, key_path: String },
}

/// Whether `path` begins with a literal `~` path component (`~` alone or
/// `~/...`).
pub open spec fn has_tilde_prefix(path: Seq<char>) -> bool {
    path.len() >= 1 && path[0] == '~' && (path.len() == 1 || path[1] == '/')
}

/// Replace a literal leading `~` component of `path` by `home`.
///
/// A path without a leading `~` component is returned unchanged. A
/// `~`-prefixed path with no known home directory is a configuration error.
pub fn expand_tilde(path: &String, home: &Option<String>) -> (r: Result<String, ConfigError>)
    ensures
        has_tilde_prefix(path@) ==> match home {
            Some(h) => (r matches Ok(p) && p@ == h@ + path@.skip(1)),
            None => r == Err::<String, ConfigError>(ConfigError::HomeDirUnavailable),
        },
        !has_tilde_prefix(path@) ==> (r matches Ok(p) && p@ == path@),
{
    let len = path.as_str().unicode_len();
    let tilde = len >= 1 && path.as_str().get_char(0) == '~' && (len == 1 || path.as_str().get_char(1) == '/');
    if tilde {
        match home {
            Some(h) => {
                let suffix = path.as_str().substring_char(1, len);
                assert(suffix@ =~= path@.skip(1));
                Ok(h.clone().concat(suffix))
            },
            None => Err(ConfigError::HomeDirUnavailable),
        }
    } else {
        Ok(path.clone())
    }
}

/// Decide which credential to offer for one request from the clone
/// transport.
///
/// Plaintext user/password is preferred whenever the transport accepts it:
/// the resolved username with the personal access token. Otherwise, if an
/// SSH key is accepted, the key at `ssh_key_path` is offered under the
/// username the transport resolved from the remote URL; a URL without a
/// username component cannot be used over SSH. Any other request is
/// unsupported.
pub fn credential_for(
    allowed: AllowedCredentialTypes,
    username_from_url: &Option<String>,
    user: &User,
    token: &String,
    ssh_key_path: &String,
) -> (r: Result<Credential, CredentialError>)
    ensures
        allowed.user_pass_plaintext ==> r == Ok::<Credential, CredentialError>(
            Credential::UserPass { username: user.username, password: *token },
        ),
        !allowed.user_pass_plaintext && allowed.ssh_key ==> match username_from_url {
            Some(u) => r == Ok::<Credential, CredentialError>(
                Credential::SshKey { username: *u, key_path: *ssh_key_path },
            ),
            None => r == Err::<Credential, CredentialError>(CredentialError::NoUsernameInUrl),
        },
        !allowed.user_pass_plaintext && !allowed.ssh_key ==> r == Err::<Credential, CredentialError>(
            CredentialError::UnsupportedCredentialType,
        ),
{
    if allowed.user_pass_plaintext {
        Ok(Credential::UserPass { username: user.username.clone(), password: token.clone() })
    } else if allowed.ssh_key {
        match username_from_url {
            Some(u) => Ok(Credential::SshKey { username: u.clone(), key_path: ssh_key_path.clone() }),
            None => Err(CredentialError::NoUsernameInUrl),
        }
    } else {
        Err(CredentialError::UnsupportedCredentialType)
    }
}

} // verus!
