//! The decisions of the login flow: which logins are admitted, and how
//! refused ones are reported.

use vstd::prelude::*;
use crate::cookies::{cookie_error_message, CookieError};
use crate::oidc::HivePermission;
use crate::text::{concat2, str_eq};

verus! {

/// The Hive permission that admits a user to Karon's admin pages.
pub const ADMIN_PERMISSION: &'static str = "karon-admin";

/// The errors of the login flow. Errors that come from the session store
/// or the OIDC client carry the message of the underlying error.
#[derive(Debug, Clone, PartialEq, Eq)]
pub enum AuthError {
    SessionInsertError(String),
    OidcMissingToken,
    OidcMissingAccessTokenHash,
    OidcClaimsVerificationError(String),
    OidcSigningError(String),
    OidcSignatureVerificationError(String),
    OidcRequestTokenError(String),
    OidcInvalidTokenHash(String),
    OidcConfigurationError(String),
    InvalidCSRFToken,
    CookieError(CookieError),
    InsufficientPermissions,
}

/// The text that describes a login error.
pub open spec fn auth_error_message(e: AuthError) -> Seq<char> {
    match e {
        AuthError::SessionInsertError(s) => s@,
        AuthError::OidcMissingToken => "login provider does not support oidc"@,
        AuthError::OidcMissingAccessTokenHash =>
            "oidc provider did not responde with a access token hash"@,
        AuthError::OidcClaimsVerificationError(s) => "failed to verify claims: "@ + s@,
        AuthError::OidcSigningError(s) => "failed to sign token hash: "@ + s@,
        AuthError::OidcSignatureVerificationError(s) => "failed to get signing alg from token: "@
            + s@,
        AuthError::OidcRequestTokenError(s) => "failed to request token from oidc provider: "@
            + s@,
        AuthError::OidcInvalidTokenHash(s) => "token hashes did not match for subject "@ + s@,
        AuthError::OidcConfigurationError(s) => "oidc configuration error: "@ + s@,
        AuthError::InvalidCSRFToken => "login request has invalid CSRF token"@,
        AuthError::CookieError(c) => cookie_error_message(c),
        AuthError::InsufficientPermissions => "user has insufficient permissions"@,
    }
}

/// The HTTP status with which a login error is answered: 401 where the
/// user is not let in (bad CSRF token, bad cookie, missing permission),
/// 500 where the login could not be carried out.
pub open spec fn auth_error_status(e: AuthError) -> u16 {
    match e {
        AuthError::InvalidCSRFToken => 401,
        AuthError::CookieError(_) => 401,
        AuthError::InsufficientPermissions => 401,
        _ => 500,
    }
}

impl AuthError {
    /// The HTTP status with which the error is answered.
    pub fn status_code(&self) -> (r: u16)
        ensures
            r == auth_error_status(*self),
    {
        match self {
            Self::OidcConfigurationError(_) => 500,
            Self::OidcMissingToken => 500,
            Self::OidcMissingAccessTokenHash => 500,
            Self::OidcClaimsVerificationError(_) => 500,
            Self::OidcSigningError(_) => 500,
            Self::OidcSignatureVerificationError(_) => 500,
            Self::OidcRequestTokenError(_) => 500,
            Self::OidcInvalidTokenHash(_) => 500,
            Self::InvalidCSRFToken => 401,
            Self::SessionInsertError(_) => 500,
            Self::CookieError(_) => 401,
            Self::InsufficientPermissions => 401,
        }
    }

    /// The text that describes the error, which is the body of the error
    /// response.
    pub fn message(&self) -> (r: String)
        ensures
            r@ == auth_error_message(*self),
    {
        match self {
            AuthError::SessionInsertError(s) => s.clone(),
            AuthError::OidcMissingToken => String::from_str("login provider does not support oidc"),
            AuthError::OidcMissingAccessTokenHash => String::from_str(
                "oidc provider did not responde with a access token hash",
            ),
            AuthError::OidcClaimsVerificationError(s) => concat2(
                "failed to verify claims: ",
                s.as_str(),
            ),
            AuthError::OidcSigningError(s) => concat2("failed to sign token hash: ", s.as_str()),
            AuthError::OidcSignatureVerificationError(s) => concat2(
                "failed to get signing alg from token: ",
                s.as_str(),
            ),
            AuthError::OidcRequestTokenError(s) => concat2(
                "failed to request token from oidc provider: ",
                s.as_str(),
            ),
            AuthError::OidcInvalidTokenHash(s) => concat2(
                "token hashes did not match for subject ",
                s.as_str(),
            ),
            AuthError::OidcConfigurationError(s) => concat2(
                "oidc configuration error: ",
                s.as_str(),
            ),
            AuthError::InvalidCSRFToken => String::from_str("login request has invalid CSRF token"),
            AuthError::CookieError(c) => c.message(),
            AuthError::InsufficientPermissions => String::from_str(
                "user has insufficient permissions",
            ),
        }
    }
}

/// The login callback must come back with the CSRF token that the login
/// was started with.
pub fn check_csrf(expected: &str, state: &str) -> (r: Result<(), AuthError>)
    ensures
        r is Ok <==> expected@ == state@,
        r is Err ==> r == Err::<(), AuthError>(AuthError::InvalidCSRFToken),
{
    if !str_eq(expected, state) {
        return Err(AuthError::InvalidCSRFToken);
    }
    Ok(())
}

/// Does one of `permissions` have the id `id`?
pub open spec fn has_permission(permissions: Seq<HivePermission>, id: Seq<char>) -> bool {
    exists|i: int| 0 <= i < permissions.len() && (#[trigger] permissions[i]).id@ == id
}

/// Does one of `permissions` have the id `id`?
pub fn holds_permission(permissions: &Vec<HivePermission>, id: &str) -> (r: bool)
    ensures
        r == has_permission(permissions@, id@),
{
    let mut i: usize = 0;
    while i < permissions.len()
        invariant
            i <= permissions@.len(),
            forall|j: int| 0 <= j < i ==> (#[trigger] permissions@[j]).id@ != id@,
        decreases permissions@.len() - i,
    {
        if str_eq(permissions[i].id.as_str(), id) {
            return true;
        }
        i = i + 1;
    }
    false
}

/// What the provider's ID token says of the user once its claims have
/// been verified: the subject, the access token hash the token claims,
/// the hash of the access token that came with it (or why it could not be
/// computed), and the user's Hive permissions.
#[derive(Debug, PartialEq, Eq)]
pub struct LoginClaims {
    pub subject: String,
    pub expected_hash: Option<String>,
    pub actual_hash: Result<String, AuthError>,
    pub permissions: Vec<HivePermission>,
}

/// Decides whether a login is admitted, from what came of the ID token:
/// no token at all, claims that did not verify, or verified claims. A
/// login is admitted, with the subject as the user's KTH id, when the ID
/// token claims an access token hash, that hash is the one of the access
/// token, and the user holds the `karon-admin` permission; the first check
/// that fails gives the error.
pub fn admit_login(id_token: Option<Result<LoginClaims, AuthError>>) -> (r: Result<
    String,
    AuthError,
>)
    ensures
        id_token is None ==> r == Err::<String, AuthError>(AuthError::OidcMissingToken),
        id_token matches Some(Err(e)) ==> r == Err::<String, AuthError>(e),
        id_token matches Some(Ok(c)) ==> match c.expected_hash {
            None => r == Err::<String, AuthError>(AuthError::OidcMissingAccessTokenHash),
            Some(expected) => match c.actual_hash {
                Err(e) => r == Err::<String, AuthError>(e),
                Ok(actual) => if actual@ != expected@ {
                    r == Err::<String, AuthError>(AuthError::OidcInvalidTokenHash(c.subject))
                } else if !has_permission(c.permissions@, ADMIN_PERMISSION@) {
                    r == Err::<String, AuthError>(AuthError::InsufficientPermissions)
                } else {
                    r == Ok::<String, AuthError>(c.subject)
                },
            },
        },
{
    let claims = match id_token {
        None => return Err(AuthError::OidcMissingToken),
        Some(Err(e)) => return Err(e),
        Some(Ok(c)) => c,
    };
    let expected = match claims.expected_hash {
        None => return Err(AuthError::OidcMissingAccessTokenHash),
        Some(h) => h,
    };
    let actual = match claims.actual_hash {
        Err(e) => return Err(e),
        Ok(h) => h,
    };
    if !str_eq(actual.as_str(), expected.as_str()) {
        return Err(AuthError::OidcInvalidTokenHash(claims.subject));
    }
    if !holds_permission(&claims.permissions, ADMIN_PERMISSION) {
        return Err(AuthError::InsufficientPermissions);
    }
    Ok(claims.subject)
}

} // verus!
