use karon::auth::{admit_login, check_csrf, holds_permission, AuthError, LoginClaims};
use karon::client::{
    event_view, is_shown_to, stored_onboard_token, verified_onboard_token, Event, EventView,
    Requester, Scanner, TokenChoice,
};
use karon::cookies::{CookieError, LoginContext};
use karon::db::{Date, Meeting, Timestamp};
use karon::oidc::HivePermission;
use karon::server::api::{
    after_member_lookup, card_permissions, card_request, check_meeting_active,
    join_onboard_data, parse_onboard_data, requester_from_bearer, session_meeting,
    with_moderator,
};
use karon::server::Error;
use karon::sso::{Member, MemberTypes};
use karon::voteit::Permissions;

#[test]
fn onboard_data_is_split_at_the_first_hash() {
    assert_eq!(
        parse_onboard_data("alice#04AB12".to_string()),
        Ok(("alice".to_string(), "04AB12".to_string()))
    );
    assert_eq!(
        parse_onboard_data("alice#04#12".to_string()),
        Ok(("alice".to_string(), "04#12".to_string()))
    );
    assert_eq!(parse_onboard_data("#".to_string()), Ok((String::new(), String::new())));
    assert_eq!(
        parse_onboard_data("åsa#kort".to_string()),
        Ok(("åsa".to_string(), "kort".to_string()))
    );
    assert_eq!(
        parse_onboard_data("alice04AB12".to_string()),
        Err(Error::ReqestParseError("alice04AB12".to_string()))
    );
}

#[test]
fn onboard_data_round_trip() {
    let data = join_onboard_data("alice", "04AB12");
    assert_eq!(data, "alice#04AB12");
    assert_eq!(parse_onboard_data(data), Ok(("alice".to_string(), "04AB12".to_string())));
}

#[test]
fn bearer_token_names_a_scanner() {
    assert_eq!(
        requester_from_bearer("00000000-0000-0000-0000-00000000002a"),
        Ok(Requester::Scanner(42))
    );
    assert_eq!(requester_from_bearer("42"), Err(Error::UuidParseError));
}

#[test]
fn session_meeting_lookup() {
    assert_eq!(session_meeting(Ok(Some(9))), Ok(9));
    assert_eq!(session_meeting(Ok(None)), Err(Error::NotConnectedToMeeting));
    assert_eq!(session_meeting(Err(())), Err(Error::TokenExpired));
}

#[test]
fn inactive_meetings_take_no_scans() {
    assert_eq!(check_meeting_active(true), Ok(()));
    assert_eq!(check_meeting_active(false), Err(Error::MeetingNotActive));
}

fn alice() -> Member {
    Member {
        kth_id: "alice".to_string(),
        email: "alice@kth.se".to_string(),
        member_type: MemberTypes::Ordinary,
    }
}

fn meeting(active: bool) -> Meeting {
    Meeting {
        meeting_id: 5,
        meeting_name: "SM".to_string(),
        meeting_date: Date { year: 2025, month: 3, day: 1 },
        created_at: Timestamp { secs: 0, nanos: 0 },
        active,
        voteit_token: "vt".to_string(),
        kerberos_token: 77,
    }
}

#[test]
fn member_lookup_outcomes() {
    let user = Requester::Scanner(77);
    assert_eq!(after_member_lookup(user.clone(), true, Ok(alice())), Ok(alice()));
    assert_eq!(
        after_member_lookup(user.clone(), false, Ok(alice())),
        Err((None, Error::MeetingNotActive))
    );
    assert_eq!(
        after_member_lookup(user.clone(), true, Err(Error::CardNotExisting("04".to_string()))),
        Err((
            Some((user.clone(), Event::Onboard { card_uid: "04".to_string() })),
            Error::CardNotExisting("04".to_string())
        ))
    );
    assert_eq!(
        after_member_lookup(user.clone(), false, Err(Error::NonMember)),
        Err((
            Some((
                user.clone(),
                Event::NonMember { picture: String::new(), name: String::new() }
            )),
            Error::NonMember
        ))
    );
    assert_eq!(
        after_member_lookup(user, true, Err(Error::VoteItRequestFail("x".to_string()))),
        Err((None, Error::VoteItRequestFail("x".to_string())))
    );
}

#[test]
fn card_permissions_refuse_non_members() {
    assert_eq!(card_permissions(MemberTypes::NonMember), Err(Error::NonMember));
    assert_eq!(card_permissions(MemberTypes::Guest), Ok(Permissions::from_bits_retain(3)));
    assert_eq!(card_permissions(MemberTypes::Ordinary), Ok(Permissions::from_bits_retain(15)));
}

#[test]
fn moderators_get_the_moderator_role() {
    let p = Permissions::from_bits_retain(3);
    assert_eq!(with_moderator(p, &Ok(true)).bits(), 19);
    assert_eq!(with_moderator(p, &Ok(false)), p);
    assert_eq!(with_moderator(p, &Err(Error::VoteItRequestFail("down".to_string()))), p);
}

#[test]
fn card_request_carries_meeting_and_member() {
    let perms = Permissions::from_bits_retain(15);
    let req = card_request(meeting(true), &alice(), perms);
    assert_eq!(req.meeting_id, 5);
    assert_eq!(req.email, "alice@kth.se");
    assert_eq!(req.voteit_token, "vt");
    assert_eq!(req.perms, perms);
}

#[test]
fn events_reach_their_subscribers() {
    let kthid = "alice".to_string();
    assert!(is_shown_to(&Requester::User("alice".to_string()), &kthid, &Scanner::NFC));
    assert!(!is_shown_to(&Requester::User("bob".to_string()), &kthid, &Scanner::NFC));
    assert!(is_shown_to(&Requester::Scanner(7), &kthid, &Scanner::Kerberos(7)));
    assert!(!is_shown_to(&Requester::Scanner(7), &kthid, &Scanner::Kerberos(8)));
    assert!(!is_shown_to(&Requester::Scanner(7), &kthid, &Scanner::NFC));
}

#[test]
fn events_are_rendered() {
    assert_eq!(
        event_view(Event::Joined {
            picture: "p.png".to_string(),
            name: "Alice".to_string(),
            member_type: MemberTypes::Alumni,
        }),
        EventView::Action {
            picture: "p.png".to_string(),
            action: "Joined the meeting as alumni member".to_string(),
            name: "Alice".to_string(),
        }
    );
    assert_eq!(
        event_view(Event::Left { picture: "p.png".to_string(), name: "Alice".to_string() }),
        EventView::Action {
            picture: "p.png".to_string(),
            action: "Left the meeting".to_string(),
            name: "Alice".to_string(),
        }
    );
    assert_eq!(
        event_view(Event::Onboard { card_uid: "04".to_string() }),
        EventView::Onboard { card_uid: "04".to_string() }
    );
    assert_eq!(
        event_view(Event::NonMember { picture: "q".to_string(), name: "Bob".to_string() }),
        EventView::NonMember { picture: "q".to_string(), name: "Bob".to_string() }
    );
}

fn claims(expected: Option<&str>, actual: Result<&str, AuthError>, perms: &[&str]) -> LoginClaims {
    LoginClaims {
        subject: "alice".to_string(),
        expected_hash: expected.map(|s| s.to_string()),
        actual_hash: actual.map(|s| s.to_string()),
        permissions: perms
            .iter()
            .map(|id| HivePermission { id: id.to_string(), scope: None })
            .collect(),
    }
}

#[test]
fn logins_are_admitted_in_order_of_checks() {
    assert_eq!(admit_login(None), Err(AuthError::OidcMissingToken));
    assert_eq!(
        admit_login(Some(Err(AuthError::OidcClaimsVerificationError("exp".to_string())))),
        Err(AuthError::OidcClaimsVerificationError("exp".to_string()))
    );
    assert_eq!(
        admit_login(Some(Ok(claims(None, Ok("h"), &["karon-admin"])))),
        Err(AuthError::OidcMissingAccessTokenHash)
    );
    assert_eq!(
        admit_login(Some(Ok(claims(
            Some("h"),
            Err(AuthError::OidcSigningError("alg".to_string())),
            &["karon-admin"]
        )))),
        Err(AuthError::OidcSigningError("alg".to_string()))
    );
    assert_eq!(
        admit_login(Some(Ok(claims(Some("h"), Ok("g"), &["karon-admin"])))),
        Err(AuthError::OidcInvalidTokenHash("alice".to_string()))
    );
    assert_eq!(
        admit_login(Some(Ok(claims(Some("h"), Ok("h"), &["other", "karon"])))),
        Err(AuthError::InsufficientPermissions)
    );
    assert_eq!(
        admit_login(Some(Ok(claims(Some("h"), Ok("h"), &["other", "karon-admin"])))),
        Ok("alice".to_string())
    );
}

#[test]
fn csrf_state_must_match() {
    assert_eq!(check_csrf("abc", "abc"), Ok(()));
    assert_eq!(check_csrf("abc", "abd"), Err(AuthError::InvalidCSRFToken));
}

#[test]
fn permission_lookup() {
    let perms = vec![
        HivePermission { id: "a".to_string(), scope: Some("x".to_string()) },
        HivePermission { id: "karon-admin".to_string(), scope: None },
    ];
    assert!(holds_permission(&perms, "karon-admin"));
    assert!(!holds_permission(&perms, "b"));
    assert!(!holds_permission(&Vec::new(), "a"));
}

#[test]
fn auth_error_statuses_and_messages() {
    assert_eq!(AuthError::InvalidCSRFToken.status_code(), 401);
    assert_eq!(AuthError::InsufficientPermissions.status_code(), 401);
    assert_eq!(AuthError::CookieError(CookieError::MissingLoginContext).status_code(), 401);
    assert_eq!(AuthError::OidcMissingToken.status_code(), 500);
    assert_eq!(AuthError::SessionInsertError("s".to_string()).status_code(), 500);
    assert_eq!(
        AuthError::OidcInvalidTokenHash("alice".to_string()).message(),
        "token hashes did not match for subject alice"
    );
    assert_eq!(
        AuthError::CookieError(CookieError::JwtDecodingError("bad".to_string())).message(),
        "failed to decode jwt: bad"
    );
    assert_eq!(AuthError::SessionInsertError("full".to_string()).message(), "full");
}

#[test]
fn login_context_expires_after_five_minutes() {
    let c = LoginContext::new_at("karon".to_string(), "csrf".to_string(), "n".to_string(), 1000);
    assert_eq!(c.exp, 1300);
    assert_eq!(c.sub, "karon");
    assert_eq!(c.csrf_token, "csrf");
    assert_eq!(c.nonce, "n");
    let checked =
        LoginContext::new_checked_at("k".to_string(), "c".to_string(), "n".to_string(), 7).unwrap();
    assert_eq!(checked.exp, 307);
    assert_eq!(checked.sub, "k");
    assert!(LoginContext::new_checked_at(
        "k".to_string(),
        "c".to_string(),
        "n".to_string(),
        u64::MAX - 299
    )
    .is_none());
    assert_eq!(
        LoginContext::new_checked_at("k".to_string(), "c".to_string(), "n".to_string(), u64::MAX - 300)
            .map(|c| c.exp),
        Some(u64::MAX)
    );
    let now = LoginContext::new("karon".to_string(), "c".to_string(), "n".to_string()).unwrap();
    assert!(now.exp >= 1_600_000_000 + 300);
}

#[test]
fn server_error_statuses_and_messages() {
    assert_eq!(Error::CardNotExisting("04".to_string()).response_status(), 422);
    assert_eq!(Error::RequestQueueFull.response_status(), 429);
    assert_eq!(Error::NonMember.response_status(), 451);
    assert_eq!(Error::MeetingNotActive.response_status(), 410);
    assert_eq!(Error::TokenExpired.response_status(), 500);
    assert_eq!(Error::TokenExpired.status_code(), 500);
    assert_eq!(Error::CardNotExisting("04".to_string()).message(), "card 04 does not exist");
    assert_eq!(
        Error::ReqestParseError("x".to_string()).message(),
        "request data x failed to parse"
    );
    assert_eq!(Error::Database("gone".to_string()).message(), "database broken: gone");
    assert_eq!(Error::NotConnectedToMeeting.message(), "This session is not connected to a meeting");
}

#[test]
fn onboarding_tokens_are_kept_while_valid() {
    assert_eq!(stored_onboard_token(Ok(Some(4))), TokenChoice::Keep(4));
    assert_eq!(stored_onboard_token(Ok(None)), TokenChoice::Replace);
    assert_eq!(stored_onboard_token(Err(())), TokenChoice::Replace);
    assert_eq!(verified_onboard_token(4, true), TokenChoice::Keep(4));
    assert_eq!(verified_onboard_token(4, false), TokenChoice::Replace);
}
