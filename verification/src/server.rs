//! The errors of Karon's server functions and how they are reported to
//! clients.

use vstd::prelude::*;

pub mod api;
pub mod worker;

verus! {

/// The errors of the card, onboarding and worker functions.
///
/// Errors that come from the database, the UUID parser or the HTTP client
/// carry the message of the underlying error.
#[derive(Debug, Clone, PartialEq, Eq)]
pub enum Error {
    Database(String),
    UuidParseError,
    MeetingNotActive,
    CardNotExisting(String),
    TokenExpired,
    ReqestParseError(String),
    CardConflict,
    VoteItRequestFail(String),
    RequestQueueFull,
    NonMember,
    NotConnectedToMeeting,
}

/// The text that describes an error to the client.
pub open spec fn error_message(e: Error) -> Seq<char> {
    match e {
        Error::Database(s) => "database broken: "@ + s@,
        Error::UuidParseError => "failed to parse UUID from string"@,
        Error::MeetingNotActive => "meeting not active"@,
        Error::CardNotExisting(s) => "card "@ + s@ + " does not exist"@,
        Error::TokenExpired => "token has expired"@,
        Error::ReqestParseError(s) => "request data "@ + s@ + " failed to parse"@,
        Error::CardConflict => "card uid already exists in SSO"@,
        Error::VoteItRequestFail(s) => "failed to send VoteIT request to VoteIT: "@ + s@,
        Error::RequestQueueFull => "VoteIT request queue full"@,
        Error::NonMember => "Person is not a member and has no permissions"@,
        Error::NotConnectedToMeeting => "This session is not connected to a meeting"@,
    }
}

/// The HTTP status with which an error is answered.
pub open spec fn error_response_status(e: Error) -> u16 {
    match e {
        Error::CardNotExisting(_) => 422,
        Error::RequestQueueFull => 429,
        Error::NonMember => 451,
        Error::MeetingNotActive => 410,
        _ => 500,
    }
}

impl Error {
    /// The status code that the error reports of itself.
    pub fn status_code(&self) -> (r: u16)
        ensures
            r == 500,
    {
        500
    }

    /// The status with which the error response is sent: 422 for an
    /// unknown card, 429 for a full request queue, 451 for a non-member,
    /// 410 for an inactive meeting and 500 for everything else.
    pub fn response_status(&self) -> (r: u16)
        ensures
            r == error_response_status(*self),
    {
        match self {
            Error::CardNotExisting(_) => 422,
            Error::RequestQueueFull => 429,
            Error::NonMember => 451,
            Error::MeetingNotActive => 410,
            _ => 500,
        }
    }

    /// The text that describes the error, which is the body of the error
    /// response.
    pub fn message(&self) -> (r: String)
        ensures
            r@ == error_message(*self),
    {
        match self {
            Error::Database(s) => String::from_str("database broken: ").concat(s.as_str()),
            Error::UuidParseError => String::from_str("failed to parse UUID from string"),
            Error::MeetingNotActive => String::from_str("meeting not active"),
            Error::CardNotExisting(s) => String::from_str("card ").concat(s.as_str()).concat(
                " does not exist",
            ),
            Error::TokenExpired => String::from_str("token has expired"),
            Error::ReqestParseError(s) => String::from_str("request data ").concat(
                s.as_str(),
            ).concat(" failed to parse"),
            Error::CardConflict => String::from_str("card uid already exists in SSO"),
            Error::VoteItRequestFail(s) => String::from_str(
                "failed to send VoteIT request to VoteIT: ",
            ).concat(s.as_str()),
            Error::RequestQueueFull => String::from_str("VoteIT request queue full"),
            Error::NonMember => String::from_str("Person is not a member and has no permissions"),
            Error::NotConnectedToMeeting => String::from_str(
                "This session is not connected to a meeting",
            ),
        }
    }
}

} // verus!
