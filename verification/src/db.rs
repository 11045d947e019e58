//! The records that Karon keeps in its database, and the decisions it
//! takes on what the database answers.

use vstd::prelude::*;
use crate::ids::{hyphenated_text, parse_uuid, parsed_uuid, uuid_text};
use crate::server::Error;
use crate::text::str_eq;
use crate::voteit::VoteItToken;

verus! {

/// A calendar date.
#[derive(Debug, Clone, Copy, PartialEq, Eq, Structural)]
pub struct Date {
    pub year: i32,
    pub month: u32,
    pub day: u32,
}

/// A point in time: whole seconds since 1970-01-01 00:00:00 UTC (leap
/// seconds not counted) and the nanoseconds within that second (from
/// 1 000 000 000 on during a leap second).
#[derive(Debug, Clone, Copy, PartialEq, Eq, Structural)]
pub struct Timestamp {
    pub secs: i64,
    pub nanos: u32,
}

/// Is `a` later than `b`?
pub open spec fn later_than(a: Timestamp, b: Timestamp) -> bool {
    a.secs > b.secs || (a.secs == b.secs && a.nanos > b.nanos)
}

/// Representation of a chapter meeting in the database.
#[derive(Debug, Clone, PartialEq, Eq)]
pub struct Meeting {
    pub meeting_id: u128,
    pub meeting_name: String,
    pub meeting_date: Date,
    pub created_at: Timestamp,
    pub active: bool,
    pub voteit_token: VoteItToken,
    pub kerberos_token: u128,
}

/// The types of actions a member can take at a meeting.
#[derive(Clone, Copy, Debug, PartialEq, Eq, Structural)]
pub enum Action {
    Entered,
    Left,
}

/// The action that the attendance update reports: the database labels a
/// closed attendance `left`, and any other label is an entry. No row at
/// all gives no action (the update found nothing to report).
pub fn action_from_row(label: Option<String>) -> (r: Option<Action>)
    ensures
        label is None <==> r is None,
        label matches Some(l) ==> (r == Some(
            if l@ == "left"@ {
                Action::Left
            } else {
                Action::Entered
            },
        )),
{
    match label {
        Some(l) => {
            if str_eq(l.as_str(), "left") {
                Some(Action::Left)
            } else {
                Some(Action::Entered)
            }
        },
        None => None,
    }
}

/// Reads a meeting's Kerberos token or an onboard token from its text.
pub fn parse_token(token_str: &str) -> (r: Result<u128, Error>)
    ensures
        parsed_uuid(token_str@) matches Some(t) ==> r == Ok::<u128, Error>(t),
        parsed_uuid(token_str@) is None ==> r == Err::<u128, Error>(Error::UuidParseError),
{
    match parse_uuid(token_str) {
        Some(t) => Ok(t),
        None => Err(Error::UuidParseError),
    }
}

/// The text form of a token, which [`parse_token`] reads back to the same
/// token.
pub fn token_text(token: u128) -> (r: String)
    ensures
        r@ == hyphenated_text(token),
        parsed_uuid(r@) == Some(token),
{
    uuid_text(token)
}

/// How long an onboard token stays valid: 48 hours, in seconds.
pub const ONBOARD_TOKEN_LIFETIME_SECS: i64 = 172800;

/// The last whole second that the service's date type can hold:
/// 262142-12-31 23:59:59 UTC.
pub const LATEST_TIMESTAMP_SECS: i64 = 8210266876799;

/// Can the expiry of a token created at `created` be written down? Its
/// date must not pass the last date the service's date type holds.
pub open spec fn expiry_representable(created: Timestamp) -> bool {
    created.secs <= LATEST_TIMESTAMP_SECS - ONBOARD_TOKEN_LIFETIME_SECS
}

/// The moment at which a token created at `created` expires.
pub open spec fn onboard_token_expiry(created: Timestamp) -> Timestamp {
    Timestamp { secs: (created.secs + ONBOARD_TOKEN_LIFETIME_SECS) as i64, nanos: created.nanos }
}

/// Can the expiry of an onboard token created at `created` be computed?
pub fn token_expiry_representable(created: Timestamp) -> (r: bool)
    ensures
        r == expiry_representable(created),
{
    created.secs <= LATEST_TIMESTAMP_SECS - ONBOARD_TOKEN_LIFETIME_SECS
}

/// The moment at which an onboard token created at `created` expires,
/// two days later at the same time of day.
pub fn token_expiry(created: Timestamp) -> (r: Timestamp)
    requires
        expiry_representable(created),
    ensures
        r == onboard_token_expiry(created),
{
    Timestamp { secs: created.secs + ONBOARD_TOKEN_LIFETIME_SECS, nanos: created.nanos }
}

/// Verifies that an onboard token created at `created` is still valid at
/// `now`, that is, that it was created less than 48 hours before `now`:
/// from the moment 48 hours after its creation on it is refused with
/// [`Error::TokenExpired`].
pub fn check_onboard_token_age(created: Timestamp, now: Timestamp) -> (r: Result<(), Error>)
    requires
        expiry_representable(created),
    ensures
        r is Ok <==> later_than(onboard_token_expiry(created), now),
        r is Err ==> r == Err::<(), Error>(Error::TokenExpired),
{
    let expiry = token_expiry(created);
    if expiry.secs > now.secs || (expiry.secs == now.secs && expiry.nanos > now.nanos) {
        Ok(())
    } else {
        Err(Error::TokenExpired)
    }
}

/// The current time from `chrono::Utc::now`, as whole seconds
/// (`timestamp`) and nanoseconds within the second
/// (`timestamp_subsec_nanos`). It depends on the clock: nothing is stated
/// of it.
#[verifier::external_body]
fn utc_now() -> (r: Timestamp) {
    let now = chrono::Utc::now();
    Timestamp { secs: now.timestamp(), nanos: now.timestamp_subsec_nanos() }
}

/// Verifies that an onboard token created at `created` is still valid now.
/// Whatever the clock reads, the answer is either success or
/// [`Error::TokenExpired`].
pub fn check_onboard_token_age_now(created: Timestamp) -> (r: Result<(), Error>)
    requires
        expiry_representable(created),
    ensures
        r is Err ==> r == Err::<(), Error>(Error::TokenExpired),
{
    let now = utc_now();
    check_onboard_token_age(created, now)
}

} // verus!
