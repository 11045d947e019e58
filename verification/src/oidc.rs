//! The claims that the chapter's OIDC provider adds to its ID tokens.

use vstd::prelude::*;

verus! {

/// A permission that Hive grants a user, optionally limited to a scope.
#[derive(Debug, Clone, PartialEq, Eq)]
pub struct HivePermission {
    pub id: String,
    pub scope: Option<String>,
}

/// The claims the provider adds to the standard ones: the user's Hive
/// permissions.
#[derive(Debug, Clone, PartialEq, Eq)]
pub struct SSOAdditionalClaims {
    pub permissions: Vec<HivePermission>,
}

} // verus!
