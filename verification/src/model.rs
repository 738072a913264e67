//! The remote catalog's data model: the authenticated user, the groups and
//! projects the account can reach, and the ordinal access-level scale that
//! filters them.

use vstd::prelude::*;
use crate::errors::ConfigError;

verus! {

/// A remote namespace node. `full_path` may contain `/` separators for
/// nested subgroups.
#[derive(Debug, Clone)]
pub struct Group {
    pub full_path: String,
}

/// The namespace owning a project.
#[derive(Debug, Clone)]
pub struct Namespace {
    pub full_path: String,
}

/// A remote repository together with its owning namespace.
#[derive(Debug, Clone)]
pub struct Project {
    pub http_url_to_repo: String,
    pub name: String,
    pub namespace: Namespace,
}

/// The authenticated user. The username doubles as the personal namespace
/// name and as the plaintext-authentication username.
#[derive(Debug, Clone)]
pub struct User {
    pub username: String,
}

/// The ordinal permission scale gating visibility of groups and projects.
#[derive(Debug, Clone, Copy, PartialEq, Eq, Structural)]
pub enum AccessLevel {
    Guest,
    Reporter,
    Developer,
    Maintainer,
    Owner,
}

impl AccessLevel {
    /// The level's position on the ordinal scale: Guest is 1, Owner is 5.
    pub open spec fn ordinal(self) -> int {
        match self {
            AccessLevel::Guest => 1,
            AccessLevel::Reporter => 2,
            AccessLevel::Developer => 3,
            AccessLevel::Maintainer => 4,
            AccessLevel::Owner => 5,
        }
    }
}

/// The raw flag count clamped into the valid ordinal range.
pub open spec fn clamped_ordinal(raw: u8) -> int {
    if raw < 1 {
        1
    } else if raw > 5 {
        5
    } else {
        raw as int
    }
}

/// Map a raw access-level count (repetitions of a flag) onto the ordinal
/// scale, clamping it into the valid range first. Clamping makes the cast
/// total, so the result is always `Ok`.
pub fn into_access_level(access_level: u8) -> (r: Result<AccessLevel, ConfigError>)
    ensures
        r is Ok,
        r->Ok_0.ordinal() == clamped_ordinal(access_level),
{
    let clamped: u8 = if access_level < 1 {
        1
    } else if access_level > 5 {
        5
    } else {
        access_level
    };
    match clamped {
        1 => Ok(AccessLevel::Guest),
        2 => Ok(AccessLevel::Reporter),
        3 => Ok(AccessLevel::Developer),
        4 => Ok(AccessLevel::Maintainer),
        5 => Ok(AccessLevel::Owner),
        _ => Err(ConfigError::InvalidAccessLevel),
    }
}

} // verus!
