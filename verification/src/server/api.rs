//! The decisions behind Karon's API endpoints `/card`, `/onboard` and
//! `/card/onboard`.

use vstd::prelude::*;
use crate::client::{Event, Requester};
use crate::db::Meeting;
use crate::ids::{parse_uuid, parsed_uuid};
use crate::server::Error;
use crate::sso::{member_permission_bits, Member, MemberTypes};
use crate::voteit::{has_flag, Permissions, VoteItRequest, MODERATOR_BIT, PARTICIPANT_BIT};

verus! {

/// Is `i` the first position of `sep` in `s`?
pub open spec fn is_first(s: Seq<char>, i: int, sep: char) -> bool {
    &&& 0 <= i < s.len()
    &&& s[i] == sep
    &&& forall|j: int| 0 <= j < i ==> s[j] != sep
}

/// `s` split around the first `sep`: the text before it and the text
/// after it; nothing if `s` holds no `sep`.
pub open spec fn split_once(s: Seq<char>, sep: char) -> Option<(Seq<char>, Seq<char>)> {
    if exists|i: int| is_first(s, i, sep) {
        let i = choose|i: int| is_first(s, i, sep);
        Some((s.take(i), s.skip(i + 1)))
    } else {
        None
    }
}

/// The onboarding data `<kth-id>#<rfid-uid>`.
pub open spec fn onboard_data(kth_id: Seq<char>, card_uid: Seq<char>) -> Seq<char> {
    kth_id + seq!['#'] + card_uid
}

/// Writes the onboarding data `<kth-id>#<rfid-uid>`.
pub fn join_onboard_data(kth_id: &str, card_uid: &str) -> (r: String)
    ensures
        r@ == onboard_data(kth_id@, card_uid@),
{
    let r = String::from_str(kth_id).concat("#").concat(card_uid);
    proof {
        reveal_strlit("#");
    }
    assert(r@ =~= onboard_data(kth_id@, card_uid@));
    r
}

/// Reads onboarding data `<kth-id>#<rfid-uid>`: the KTH id is what
/// precedes the first `#`, the card uid all that follows it. Data
/// without `#` is refused with the whole text.
pub fn parse_onboard_data(req_body: String) -> (r: Result<(String, String), Error>)
    ensures
        split_once(req_body@, '#') matches Some((k, c)) ==> (r matches Ok((kth_id, card_uid))
            && kth_id@ == k && card_uid@ == c),
        split_once(req_body@, '#') is None ==> (r matches Err(Error::ReqestParseError(body))
            && body@ == req_body@),
{
    let n = req_body.as_str().unicode_len();
    let mut i: usize = 0;
    while i < n
        invariant
            n == req_body@.len(),
            i <= n,
            forall|j: int| 0 <= j < i ==> req_body@[j] != '#',
        decreases n - i,
    {
        if req_body.as_str().get_char(i) == '#' {
            assert(is_first(req_body@, i as int, '#'));
            let ghost first = choose|j: int| is_first(req_body@, j, '#');
            assert(first == i as int) by {
                if first < i {
                } else if first > i {
                }
            }
            let kth_id = String::from_str(req_body.as_str().substring_char(0, i));
            let card_uid = String::from_str(req_body.as_str().substring_char(i + 1, n));
            assert(req_body@.take(i as int) =~= req_body@.subrange(0, i as int));
            assert(req_body@.skip(i + 1) =~= req_body@.subrange(i + 1, n as int));
            return Ok((kth_id, card_uid));
        }
        i = i + 1;
    }
    assert(!exists|j: int| is_first(req_body@, j, '#'));
    Err(Error::ReqestParseError(req_body))
}

/// Onboarding data written by [`join_onboard_data`] reads back as the KTH
/// id and card uid it was written from, as long as the KTH id holds no
/// `#`.
pub proof fn lemma_onboard_data_roundtrip(kth_id: Seq<char>, card_uid: Seq<char>)
    requires
        !kth_id.contains('#'),
    ensures
        split_once(onboard_data(kth_id, card_uid), '#') == Some((kth_id, card_uid)),
{
    let s = onboard_data(kth_id, card_uid);
    let n = kth_id.len() as int;
    assert(s[n] == '#');
    assert forall|j: int| 0 <= j < n implies s[j] != '#' by {
        assert(s[j] == kth_id[j]);
    }
    assert(is_first(s, n, '#'));
    let i = choose|i: int| is_first(s, i, '#');
    assert(i == n) by {
        if i < n {
        } else if i > n {
        }
    }
    assert(s.take(n) =~= kth_id);
    assert(s.skip(n + 1) =~= card_uid);
}


/// Identifies a Kerberos scanner by the bearer token it sent.
pub fn requester_from_bearer(token: &str) -> (r: Result<Requester, Error>)
    ensures
        parsed_uuid(token@) matches Some(t) ==> r == Ok::<Requester, Error>(Requester::Scanner(t)),
        parsed_uuid(token@) is None ==> r == Err::<Requester, Error>(Error::UuidParseError),
{
    match parse_uuid(token) {
        Some(t) => Ok(Requester::Scanner(t)),
        None => Err(Error::UuidParseError),
    }
}

/// The meeting that a web session scans for, from what its session
/// holds: a session that cannot be read is treated as expired, and one
/// without a meeting is not connected to one.
pub fn session_meeting(stored: Result<Option<u128>, ()>) -> (r: Result<u128, Error>)
    ensures
        stored matches Ok(Some(id)) ==> r == Ok::<u128, Error>(id),
        stored matches Ok(None) ==> r == Err::<u128, Error>(Error::NotConnectedToMeeting),
        stored is Err ==> r == Err::<u128, Error>(Error::TokenExpired),
{
    match stored {
        Ok(Some(id)) => Ok(id),
        Ok(None) => Err(Error::NotConnectedToMeeting),
        Err(_) => Err(Error::TokenExpired),
    }
}

/// Card scans are only taken while the meeting is active.
pub fn check_meeting_active(active: bool) -> (r: Result<(), Error>)
    ensures
        active ==> r is Ok,
        !active ==> r == Err::<(), Error>(Error::MeetingNotActive),
{
    if !active {
        Err(Error::MeetingNotActive)
    } else {
        Ok(())
    }
}

/// What a `/card` scan goes on with once the card's owner has been looked
/// up: the member, or the error to answer with and the event, if any, to
/// show the requester. An unknown card is offered for onboarding, a
/// non-member is shown as such (nothing is known of them, so the picture
/// and name are empty), any other lookup error is answered as it is, and
/// a known member is refused while the meeting is inactive.
pub fn after_member_lookup(user: Requester, meeting_active: bool, lookup: Result<Member, Error>) -> (r:
    Result<Member, (Option<(Requester, Event)>, Error)>)
    ensures
        lookup matches Ok(m) ==> (meeting_active ==> r == Ok::<
            Member,
            (Option<(Requester, Event)>, Error),
        >(m)),
        lookup is Ok ==> (!meeting_active ==> r == Err::<Member, (Option<(Requester, Event)>, Error)>(
            (None, Error::MeetingNotActive),
        )),
        lookup matches Err(Error::CardNotExisting(c)) ==> r == Err::<
            Member,
            (Option<(Requester, Event)>, Error),
        >((Some((user, Event::Onboard { card_uid: c })), Error::CardNotExisting(c))),
        lookup matches Err(Error::NonMember) ==> (r matches Err(
            (Some((u, Event::NonMember { picture, name })), Error::NonMember),
        ) && u == user && picture@.len() == 0 && name@.len() == 0),
        lookup matches Err(e) ==> (!(e is CardNotExisting) && !(e is NonMember) ==> r == Err::<
            Member,
            (Option<(Requester, Event)>, Error),
        >((None, e))),
{
    match lookup {
        Ok(member) => {
            if !meeting_active {
                Err((None, Error::MeetingNotActive))
            } else {
                Ok(member)
            }
        },
        Err(error) => {
            let notice = match &error {
                Error::CardNotExisting(card_uid) => Some(
                    (user, Event::Onboard { card_uid: card_uid.clone() }),
                ),
                Error::NonMember => Some(
                    (user, Event::NonMember { picture: String::new(), name: String::new() }),
                ),
                _ => None,
            };
            Err((notice, error))
        },
    }
}

/// The VoteIT permissions of a member who checks in: those of their
/// membership type; a membership that does not even let them take part is
/// refused as a non-member.
pub fn card_permissions(member_type: MemberTypes) -> (r: Result<Permissions, Error>)
    ensures
        has_flag(member_permission_bits(member_type), PARTICIPANT_BIT) ==> r == Ok::<
            Permissions,
            Error,
        >(Permissions { bits: member_permission_bits(member_type) }),
        !has_flag(member_permission_bits(member_type), PARTICIPANT_BIT) ==> r == Err::<
            Permissions,
            Error,
        >(Error::NonMember),
{
    let perms = Permissions::from(member_type);
    if !perms.contains(Permissions::participant()) {
        return Err(Error::NonMember);
    }
    Ok(perms)
}

/// Adds the moderator role where Hive said that the member is a moderator;
/// where Hive said no, or could not be asked, the permissions stay as they
/// are.
pub fn with_moderator(perms: Permissions, moderator: &Result<bool, Error>) -> (r: Permissions)
    ensures
        (*moderator matches Ok(true)) ==> r.bits == perms.bits | MODERATOR_BIT,
        !(*moderator matches Ok(true)) ==> r == perms,
{
    match moderator {
        Ok(true) => perms.union(Permissions::moderator()),
        _ => perms,
    }
}

/// The VoteIT request that updates a member's attendance at a meeting with
/// the given permissions.
pub fn card_request(meeting: Meeting, member: &Member, perms: Permissions) -> (r: VoteItRequest)
    ensures
        r.meeting_id == meeting.meeting_id,
        r.email@ == member.email@,
        r.perms == perms,
        r.voteit_token == meeting.voteit_token,
{
    VoteItRequest {
        meeting_id: meeting.meeting_id,
        email: member.email.clone(),
        perms,
        voteit_token: meeting.voteit_token,
    }
}


/// Where a card check-in stands between two outside calls.
#[derive(Debug, PartialEq, Eq)]
pub enum CardState {
    /// Waiting for the owner of the card. `onboarded` tells a `/card/onboard`
    /// check-in (the card was just added and the meeting already checked)
    /// from a `/card` one.
    AwaitingMember { user: Requester, meeting: Meeting, onboarded: bool },
    /// Waiting for SSO to add the card `card_uid` to its owner.
    AwaitingOnboard { user: Requester, meeting: Meeting, card_uid: String },
    /// Waiting for Hive to say whether the member is a moderator.
    AwaitingModerator { user: Requester, meeting: Meeting, member: Member, perms: Permissions },
    /// Waiting for the request to be queued for the worker.
    AwaitingQueue { kth_id: String },
    /// The check-in has been answered.
    Finished,
}

/// What came back from the outside call that a [`CardAction`] asked for.
#[derive(Debug, PartialEq, Eq)]
pub enum CardEvent {
    MemberLookedUp(Result<Member, Error>),
    Onboarded(Result<(), Error>),
    ModeratorChecked(Result<bool, Error>),
    Queued(Result<(), Error>),
}

/// What the endpoint does next.
#[derive(Debug, PartialEq, Eq)]
pub enum CardAction {
    /// Look up the member who owns the card (`sso::get_member_info`).
    LookUpMember { card_uid: String },
    /// Add the card to the member in SSO (`sso::onboard`).
    Onboard { card_uid: String, kth_id: String },
    /// Ask Hive whether the member is a moderator (`sso::check_moderator`).
    CheckModerator { kth_id: String },
    /// Queue the request for the worker.
    Enqueue { user: Requester, member: Member, request: VoteItRequest },
    /// Show the event, if any, to the requester, and answer with the error.
    Fail { notice: Option<(Requester, Event)>, error: Error },
    /// Answer with the KTH id of the member who checked in.
    Answer { kth_id: String },
}

/// Does `event` answer the call that `state` waits for?
pub open spec fn card_event_fits(state: CardState, event: CardEvent) -> bool {
    match state {
        CardState::AwaitingMember { .. } => event is MemberLookedUp,
        CardState::AwaitingOnboard { .. } => event is Onboarded,
        CardState::AwaitingModerator { .. } => event is ModeratorChecked,
        CardState::AwaitingQueue { .. } => event is Queued,
        CardState::Finished => false,
    }
}

/// Starts a `/card` check-in of the card `card_uid` by `user` at
/// `meeting`: the first thing to do is to look up the card's owner.
pub fn start_card(user: Requester, meeting: Meeting, card_uid: String) -> (r: (
    CardState,
    CardAction,
))
    ensures
        r.0 == (CardState::AwaitingMember { user, meeting, onboarded: false }),
        r.1 == (CardAction::LookUpMember { card_uid }),
{
    (CardState::AwaitingMember { user, meeting, onboarded: false }, CardAction::LookUpMember {
        card_uid,
    })
}

/// Starts a `/card/onboard` check-in, which first adds the card `card_uid`
/// to the member `kth_id`: refused while the meeting is inactive; the
/// onboarding data `<kth-id>#<card-uid>` is written and read back, and
/// SSO is asked to add the card that it names to the member it names.
pub fn start_card_onboard(user: Requester, meeting: Meeting, kth_id: &str, card_uid: &str) -> (r: (
    CardState,
    CardAction,
))
    ensures
        !meeting.active ==> r == (CardState::Finished, CardAction::Fail {
            notice: None,
            error: Error::MeetingNotActive,
        }),
        meeting.active ==> {
            &&& split_once(onboard_data(kth_id@, card_uid@), '#') matches Some((k, c))
            &&& r.1 matches CardAction::Onboard { card_uid: c2, kth_id: k2 }
            &&& c2@ == c && k2@ == k
            &&& r.0 matches CardState::AwaitingOnboard { user: u, meeting: m, card_uid: c3 }
            &&& u == user && m == meeting && c3@ == c
        },
        meeting.active && !kth_id@.contains('#') ==> {
            &&& r.1 matches CardAction::Onboard { card_uid: c2, kth_id: k2 }
            &&& c2@ == card_uid@ && k2@ == kth_id@
        },
{
    if !meeting.active {
        return (CardState::Finished, CardAction::Fail { notice: None, error: Error::MeetingNotActive });
    }
    let data = join_onboard_data(kth_id, card_uid);
    proof {
        lemma_onboard_data_has_separator(kth_id@, card_uid@);
        if !kth_id@.contains('#') {
            lemma_onboard_data_roundtrip(kth_id@, card_uid@);
        }
    }
    match parse_onboard_data(data) {
        Ok((k, c)) => {
            let c2 = c.clone();
            (CardState::AwaitingOnboard { user, meeting, card_uid: c2 }, CardAction::Onboard {
                card_uid: c,
                kth_id: k,
            })
        },
        Err(error) => (CardState::Finished, CardAction::Fail { notice: None, error }),
    }
}

/// A text that holds `sep` somewhere has a first `sep`.
pub proof fn lemma_first_exists(s: Seq<char>, k: int, sep: char)
    requires
        0 <= k < s.len(),
        s[k] == sep,
    ensures
        exists|i: int| is_first(s, i, sep),
    decreases k,
{
    if exists|j: int| 0 <= j < k && s[j] == sep {
        let j = choose|j: int| 0 <= j < k && s[j] == sep;
        lemma_first_exists(s, j, sep);
    } else {
        assert(is_first(s, k, sep));
    }
}

/// Onboarding data always holds the separator, so it always reads back.
pub proof fn lemma_onboard_data_has_separator(kth_id: Seq<char>, card_uid: Seq<char>)
    ensures
        split_once(onboard_data(kth_id, card_uid), '#') is Some,
{
    let s = onboard_data(kth_id, card_uid);
    assert(s[kth_id.len() as int] == '#');
    lemma_first_exists(s, kth_id.len() as int, '#');
}

/// The next step of a card check-in, from where it stands and what the
/// last outside call gave:
/// - once the card is onboarded, its owner is looked up; a failed
///   onboarding is answered with its error;
/// - once the owner is known, a `/card` check-in goes on as
///   [`after_member_lookup`] says and a `/card/onboard` one answers lookup
///   errors as they are; the member's permissions are then those of
///   [`card_permissions`] (non-members are refused) and Hive is asked
///   whether they moderate;
/// - the answer from Hive adds the moderator role as [`with_moderator`]
///   says, and the VoteIT request of [`card_request`] is queued;
/// - once queued, the member's KTH id is the answer; a full queue is
///   answered with its error.
pub fn card_step(state: CardState, event: CardEvent) -> (r: (CardState, CardAction))
    requires
        card_event_fits(state, event),
    ensures
        state matches CardState::AwaitingOnboard { user, meeting, card_uid } ==> match event {
            CardEvent::Onboarded(Ok(())) => r == (CardState::AwaitingMember {
                user,
                meeting,
                onboarded: true,
            }, CardAction::LookUpMember { card_uid }),
            CardEvent::Onboarded(Err(e)) => r == (CardState::Finished, CardAction::Fail {
                notice: None,
                error: e,
            }),
            _ => false,
        },
        state matches CardState::AwaitingMember { user, meeting, onboarded } ==> match event {
            CardEvent::MemberLookedUp(lookup) => match lookup {
                Err(e) => if onboarded {
                    r == (CardState::Finished, CardAction::Fail { notice: None, error: e })
                } else {
                    match e {
                        Error::CardNotExisting(c) => r == (CardState::Finished, CardAction::Fail {
                            notice: Some((user, Event::Onboard { card_uid: c })),
                            error: Error::CardNotExisting(c),
                        }),
                        Error::NonMember => {
                            &&& r.0 == CardState::Finished
                            &&& r.1 matches CardAction::Fail {
                                notice: Some((u, Event::NonMember { picture, name })),
                                error: Error::NonMember,
                            }
                            &&& u == user
                            &&& picture@.len() == 0
                            &&& name@.len() == 0
                        },
                        _ => r == (CardState::Finished, CardAction::Fail { notice: None, error: e }),
                    }
                },
                Ok(m) => if !onboarded && !meeting.active {
                    r == (CardState::Finished, CardAction::Fail {
                        notice: None,
                        error: Error::MeetingNotActive,
                    })
                } else if has_flag(member_permission_bits(m.member_type), PARTICIPANT_BIT) {
                    r.0 == (CardState::AwaitingModerator {
                        user,
                        meeting,
                        member: m,
                        perms: Permissions { bits: member_permission_bits(m.member_type) },
                    }) && r.1 == (CardAction::CheckModerator { kth_id: m.kth_id })
                } else {
                    r == (CardState::Finished, CardAction::Fail {
                        notice: None,
                        error: Error::NonMember,
                    })
                },
            },
            _ => false,
        },
        state matches CardState::AwaitingModerator { user, meeting, member, perms } ==> match event {
            CardEvent::ModeratorChecked(moderator) => {
                &&& r.0 matches CardState::AwaitingQueue { kth_id } && kth_id == member.kth_id
                &&& r.1 matches CardAction::Enqueue { user: u, member: m, request } && u == user && m
                    == member && request.meeting_id == meeting.meeting_id && request.email@
                    == member.email@ && request.voteit_token == meeting.voteit_token && request.perms
                    == (if moderator matches Ok(true) {
                    Permissions { bits: perms.bits | MODERATOR_BIT }
                } else {
                    perms
                })
            },
            _ => false,
        },
        state matches CardState::AwaitingQueue { kth_id } ==> match event {
            CardEvent::Queued(Ok(())) => r == (CardState::Finished, CardAction::Answer { kth_id }),
            CardEvent::Queued(Err(e)) => r == (CardState::Finished, CardAction::Fail {
                notice: None,
                error: e,
            }),
            _ => false,
        },
{
    match state {
        CardState::AwaitingOnboard { user, meeting, card_uid } => match event {
            CardEvent::Onboarded(Ok(())) => (
                CardState::AwaitingMember { user, meeting, onboarded: true },
                CardAction::LookUpMember { card_uid },
            ),
            CardEvent::Onboarded(Err(error)) => (
                CardState::Finished,
                CardAction::Fail { notice: None, error },
            ),
            // Events that do not fit the state are ruled out by the precondition.
            _ => (CardState::Finished, CardAction::Fail { notice: None, error: Error::TokenExpired }),
        },
        CardState::AwaitingMember { user, meeting, onboarded } => match event {
            CardEvent::MemberLookedUp(lookup) => {
                let member = if onboarded {
                    match lookup {
                        Ok(m) => m,
                        Err(error) => {
                            return (CardState::Finished, CardAction::Fail { notice: None, error });
                        },
                    }
                } else {
                    match after_member_lookup(user.duplicate(), meeting.active, lookup) {
                        Ok(m) => m,
                        Err((notice, error)) => {
                            return (CardState::Finished, CardAction::Fail { notice, error });
                        },
                    }
                };
                match card_permissions(member.member_type) {
                    Ok(perms) => {
                        let kth_id = member.kth_id.clone();
                        (
                            CardState::AwaitingModerator { user, meeting, member, perms },
                            CardAction::CheckModerator { kth_id },
                        )
                    },
                    Err(error) => (CardState::Finished, CardAction::Fail { notice: None, error }),
                }
            },
            // Events that do not fit the state are ruled out by the precondition.
            _ => (CardState::Finished, CardAction::Fail { notice: None, error: Error::TokenExpired }),
        },
        CardState::AwaitingModerator { user, meeting, member, perms } => match event {
            CardEvent::ModeratorChecked(moderator) => {
                let perms = with_moderator(perms, &moderator);
                let request = card_request(meeting, &member, perms);
                let kth_id = member.kth_id.clone();
                (CardState::AwaitingQueue { kth_id }, CardAction::Enqueue { user, member, request })
            },
            // Events that do not fit the state are ruled out by the precondition.
            _ => (CardState::Finished, CardAction::Fail { notice: None, error: Error::TokenExpired }),
        },
        CardState::AwaitingQueue { kth_id } => match event {
            CardEvent::Queued(Ok(())) => (CardState::Finished, CardAction::Answer { kth_id }),
            CardEvent::Queued(Err(error)) => (
                CardState::Finished,
                CardAction::Fail { notice: None, error },
            ),
            // Events that do not fit the state are ruled out by the precondition.
            _ => (CardState::Finished, CardAction::Fail { notice: None, error: Error::TokenExpired }),
        },
        // A finished check-in takes no events; the precondition rules this out.
        CardState::Finished => (CardState::Finished, CardAction::Answer { kth_id: String::new() }),
    }
}

} // verus!
