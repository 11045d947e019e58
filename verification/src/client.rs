//! The admin web client: the events that scanners and users are shown,
//! and which subscriber is shown which event.

use vstd::prelude::*;
use crate::sso::{member_type_name, MemberTypes};
use crate::text::{concat3, str_eq};

verus! {

/// Session key of the logged-in user's KTH id.
pub const KTH_ID: &'static str = "kth-id";
/// Session key of the onboarding token.
pub const KERBEROS_TOKEN: &'static str = "kerberos-token";
/// Session key of the scanner that the session drives.
pub const SCANNER: &'static str = "scanner";
/// Session key of the meeting that the session scans for.
pub const MEETING_ID: &'static str = "meeting-id";

/// Who a card scan comes from: a logged-in user of the web client,
/// named by KTH id, or a Kerberos scanner, named by its token.
#[derive(Debug, Clone, PartialEq, Eq)]
pub enum Requester {
    User(String),
    Scanner(u128),
}

impl Requester {
    /// An equal requester.
    pub fn duplicate(&self) -> (r: Self)
        ensures
            r == *self,
    {
        match self {
            Requester::User(id) => Requester::User(id.clone()),
            Requester::Scanner(token) => Requester::Scanner(*token),
        }
    }
}

/// Something that happened at a scanner, shown to whoever watches it.
#[derive(Debug, Clone, PartialEq, Eq)]
pub enum Event {
    Joined { picture: String, name: String, member_type: MemberTypes },
    Left { picture: String, name: String },
    Onboard { card_uid: String },
    NonMember { picture: String, name: String },
}

/// The scanner that a client session drives.
#[derive(Debug, Clone, Copy, PartialEq, Eq, Structural)]
pub enum Scanner {
    Kerberos(u128),
    NFC,
}

/// Is an event addressed to `recipient` shown to the session of the user
/// `kthid` that drives `scanner`? Events for a user go to that user's
/// sessions; events for a Kerberos scanner go to the sessions that drive
/// the scanner with that token; NFC sessions get no scanner events.
pub open spec fn shown_to(recipient: Requester, kthid: Seq<char>, scanner: Scanner) -> bool {
    match recipient {
        Requester::User(id) => id@ == kthid,
        Requester::Scanner(token) => scanner == Scanner::Kerberos(token),
    }
}

/// Filters the event stream of one client session.
pub fn is_shown_to(recipient: &Requester, kthid: &String, scanner: &Scanner) -> (r: bool)
    ensures
        r == shown_to(*recipient, kthid@, *scanner),
        *recipient matches Requester::User(id) ==> (r <==> id@ == kthid@),
        *recipient matches Requester::Scanner(t) ==> (r <==> *scanner == Scanner::Kerberos(t)),
{
    match recipient {
        Requester::User(id) => str_eq(id.as_str(), kthid.as_str()),
        Requester::Scanner(token) => match scanner {
            Scanner::Kerberos(kb_token) => *token == *kb_token,
            Scanner::NFC => false,
        },
    }
}

/// What the client shows for one event.
#[derive(Debug, Clone, PartialEq, Eq)]
pub enum EventView {
    /// Someone joined or left: their picture, their name and what they did.
    Action { picture: String, action: String, name: String },
    /// An unknown card was scanned and can be onboarded.
    Onboard { card_uid: String },
    /// Someone without membership scanned their card.
    NonMember { picture: String, name: String },
}

/// The text that describes a member joining the meeting.
pub open spec fn joined_text(t: MemberTypes) -> Seq<char> {
    "Joined the meeting as "@ + member_type_name(t) + " member"@
}

/// What the client shows for an event: joins and leaves as actions with
/// their text, onboarding and non-member scans as their own views.
pub open spec fn event_view_of(e: Event, v: EventView) -> bool {
    match e {
        Event::Joined { picture, name, member_type } => v matches EventView::Action {
            picture: p,
            action: a,
            name: n,
        } && p == picture && n == name && a@ == joined_text(member_type),
        Event::Left { picture, name } => v matches EventView::Action {
            picture: p,
            action: a,
            name: n,
        } && p == picture && n == name && a@ == "Left the meeting"@,
        Event::Onboard { card_uid } => v == EventView::Onboard { card_uid },
        Event::NonMember { picture, name } => v == EventView::NonMember { picture, name },
    }
}

/// Turns an event into what the client shows for it.
pub fn event_view(event: Event) -> (r: EventView)
    ensures
        event_view_of(event, r),
{
    match event {
        Event::Joined { name, picture, member_type } => {
            let action = concat3("Joined the meeting as ", member_type.as_str(), " member");
            EventView::Action { picture, action, name }
        },
        Event::Left { name, picture } => {
            EventView::Action { picture, action: String::from_str("Left the meeting"), name }
        },
        Event::Onboard { card_uid } => EventView::Onboard { card_uid },
        Event::NonMember { name, picture } => EventView::NonMember { picture, name },
    }
}


/// Whether the onboarding page keeps a token or makes a new one.
#[derive(Debug, Clone, Copy, PartialEq, Eq, Structural)]
pub enum TokenChoice {
    Keep(u128),
    Replace,
}

/// The onboarding page reuses the token its session holds; a session
/// without one, or one that cannot be read, gets a new token.
pub fn stored_onboard_token(stored: Result<Option<u128>, ()>) -> (r: TokenChoice)
    ensures
        stored matches Ok(Some(t)) ==> r == TokenChoice::Keep(t),
        !(stored matches Ok(Some(_))) ==> r == TokenChoice::Replace,
{
    match stored {
        Ok(Some(t)) => TokenChoice::Keep(t),
        _ => TokenChoice::Replace,
    }
}

/// A token is kept only while it verifies (it exists and has not
/// expired); otherwise it is replaced.
pub fn verified_onboard_token(token: u128, verified: bool) -> (r: TokenChoice)
    ensures
        verified ==> r == TokenChoice::Keep(token),
        !verified ==> r == TokenChoice::Replace,
{
    if verified {
        TokenChoice::Keep(token)
    } else {
        TokenChoice::Replace
    }
}


/// Routing law: an event for a user is shown to exactly that user's
/// sessions, whichever scanner a session drives; an event for a scanner
/// token is shown to exactly the sessions that drive the Kerberos scanner
/// with that token, and never to an NFC session.
pub proof fn lemma_event_routing(id: Seq<char>, token: u128, kthid: Seq<char>, scanner: Scanner)
    ensures
        forall|u: String| #[trigger] u@ == id ==> (shown_to(Requester::User(u), kthid, scanner)
            <==> id == kthid),
        shown_to(Requester::Scanner(token), kthid, Scanner::NFC) == false,
        forall|other: u128|
            #[trigger] shown_to(Requester::Scanner(token), kthid, Scanner::Kerberos(other)) <==> other
                == token,
        forall|u: String, s1: Scanner, s2: Scanner|
            #[trigger] shown_to(Requester::User(u), kthid, s1) == #[trigger] shown_to(
                Requester::User(u),
                kthid,
                s2,
            ),
{
}

} // verus!
