//! The login context that is kept in a cookie while a user is sent to the
//! OIDC provider and back.

use vstd::prelude::*;
use crate::text::concat2;

verus! {

/// How long a login context stays valid: five minutes, in seconds.
pub const LOGIN_CONTEXT_LIFETIME_SECS: u64 = 300;

/// The subject that the middleware writes into the login contexts it
/// starts.
pub const LOGIN_SUBJECT: &'static str = "karon";

/// What Karon remembers of a login while the user is at the OIDC
/// provider: the subject, the nonce and CSRF token it sent, and when the
/// context expires (seconds since the epoch).
#[derive(Debug, Clone, PartialEq, Eq)]
pub struct LoginContext {
    pub sub: String,
    pub nonce: String,
    pub csrf_token: String,
    pub exp: u64,
}

/// The errors of the login context cookie.
#[derive(Debug, Clone, PartialEq, Eq)]
pub enum CookieError {
    JwtEncodingError(String),
    JwtDecodingError(String),
    MissingSessionCookie,
    MissingLoginContext,
}

/// The text that describes a cookie error.
pub open spec fn cookie_error_message(e: CookieError) -> Seq<char> {
    match e {
        CookieError::JwtEncodingError(s) => "failed to encode jwt: "@ + s@,
        CookieError::JwtDecodingError(s) => "failed to decode jwt: "@ + s@,
        CookieError::MissingSessionCookie => "failed to get session cookie"@,
        CookieError::MissingLoginContext => "trying to finish auth flow but missing context"@,
    }
}

impl CookieError {
    /// The text that describes the error.
    pub fn message(&self) -> (r: String)
        ensures
            r@ == cookie_error_message(*self),
    {
        match self {
            CookieError::JwtEncodingError(s) => concat2("failed to encode jwt: ", s.as_str()),
            CookieError::JwtDecodingError(s) => concat2("failed to decode jwt: ", s.as_str()),
            CookieError::MissingSessionCookie => String::from_str("failed to get session cookie"),
            CookieError::MissingLoginContext => String::from_str(
                "trying to finish auth flow but missing context",
            ),
        }
    }
}

/// The current time in seconds since the epoch, from
/// `jsonwebtoken::get_current_timestamp`. It depends on the clock: nothing
/// is stated of it.
#[verifier::external_body]
fn current_timestamp() -> (r: u64) {
    jsonwebtoken::get_current_timestamp()
}

impl LoginContext {
    /// A login context started at `now` (seconds since the epoch), which
    /// expires five minutes later.
    pub fn new_at(sub: String, csrf_token: String, nonce: String, now: u64) -> (r: Self)
        requires
            now <= u64::MAX - LOGIN_CONTEXT_LIFETIME_SECS,
        ensures
            r.sub == sub,
            r.csrf_token == csrf_token,
            r.nonce == nonce,
            r.exp == now + LOGIN_CONTEXT_LIFETIME_SECS,
    {
        LoginContext { sub, csrf_token, nonce, exp: now + LOGIN_CONTEXT_LIFETIME_SECS }
    }

    /// A login context started at the clock reading `now`, which expires
    /// five minutes later; `None` exactly where that expiry cannot be
    /// written as a `u64`.
    pub fn new_checked_at(sub: String, csrf_token: String, nonce: String, now: u64) -> (r: Option<
        Self,
    >)
        ensures
            r is Some <==> now <= u64::MAX - LOGIN_CONTEXT_LIFETIME_SECS,
            r matches Some(c) ==> c.sub == sub && c.csrf_token == csrf_token && c.nonce == nonce
                && c.exp == now + LOGIN_CONTEXT_LIFETIME_SECS,
    {
        if now <= u64::MAX - LOGIN_CONTEXT_LIFETIME_SECS {
            Some(Self::new_at(sub, csrf_token, nonce, now))
        } else {
            None
        }
    }

    /// A login context started now, which expires five minutes from now;
    /// see [`LoginContext::new_checked_at`], which decides for every clock
    /// reading. `None` only where the clock reads so late that the expiry
    /// cannot be written as a `u64`.
    pub fn new(sub: String, csrf_token: String, nonce: String) -> (r: Option<Self>)
        ensures
            r matches Some(c) ==> c.sub == sub && c.csrf_token == csrf_token && c.nonce == nonce
                && c.exp >= LOGIN_CONTEXT_LIFETIME_SECS,
    {
        Self::new_checked_at(sub, csrf_token, nonce, current_timestamp())
    }
}

} // verus!
