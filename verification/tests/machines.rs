use karon::client::{Event, Requester};
use karon::db::{Action, Date, Meeting, Timestamp};
use karon::server::api::{
    card_step, start_card, start_card_onboard, CardAction, CardEvent, CardState,
};
use karon::server::worker::{job_step, start_job, Delivery, RetryStep};
use karon::server::Error;
use karon::sso::{Member, MemberTypes};
use karon::voteit::{Permissions, VoteItRequest};

fn meeting(active: bool) -> Meeting {
    Meeting {
        meeting_id: 11,
        meeting_name: "SM".to_string(),
        meeting_date: Date { year: 2025, month: 5, day: 2 },
        created_at: Timestamp { secs: 1, nanos: 0 },
        active,
        voteit_token: "vt".to_string(),
        kerberos_token: 99,
    }
}

fn member(t: MemberTypes) -> Member {
    Member { kth_id: "bob".to_string(), email: "bob@kth.se".to_string(), member_type: t }
}

#[test]
fn card_check_in_runs_to_the_answer() {
    let user = Requester::Scanner(99);
    let (state, action) = start_card(user.clone(), meeting(true), "04AB".to_string());
    assert_eq!(action, CardAction::LookUpMember { card_uid: "04AB".to_string() });
    let (state, action) =
        card_step(state, CardEvent::MemberLookedUp(Ok(member(MemberTypes::Alumni))));
    assert_eq!(action, CardAction::CheckModerator { kth_id: "bob".to_string() });
    let (state, action) = card_step(state, CardEvent::ModeratorChecked(Ok(true)));
    match action {
        CardAction::Enqueue { user: u, member: m, request } => {
            assert_eq!(u, user);
            assert_eq!(m, member(MemberTypes::Alumni));
            assert_eq!(
                request,
                VoteItRequest {
                    meeting_id: 11,
                    voteit_token: "vt".to_string(),
                    email: "bob@kth.se".to_string(),
                    perms: Permissions::from_bits_retain(0b10111),
                }
            );
        }
        other => panic!("unexpected action {:?}", other),
    }
    let (state, action) = card_step(state, CardEvent::Queued(Ok(())));
    assert_eq!(state, CardState::Finished);
    assert_eq!(action, CardAction::Answer { kth_id: "bob".to_string() });
}

#[test]
fn card_check_in_refusals() {
    let user = Requester::User("admin".to_string());
    let (state, _) = start_card(user.clone(), meeting(false), "04".to_string());
    let (_, action) = card_step(state, CardEvent::MemberLookedUp(Ok(member(MemberTypes::Guest))));
    assert_eq!(action, CardAction::Fail { notice: None, error: Error::MeetingNotActive });

    let (state, _) = start_card(user.clone(), meeting(true), "04".to_string());
    let (_, action) =
        card_step(state, CardEvent::MemberLookedUp(Ok(member(MemberTypes::NonMember))));
    assert_eq!(action, CardAction::Fail { notice: None, error: Error::NonMember });

    let (state, _) = start_card(user.clone(), meeting(false), "04".to_string());
    let (_, action) = card_step(
        state,
        CardEvent::MemberLookedUp(Err(Error::CardNotExisting("04".to_string()))),
    );
    assert_eq!(
        action,
        CardAction::Fail {
            notice: Some((user.clone(), Event::Onboard { card_uid: "04".to_string() })),
            error: Error::CardNotExisting("04".to_string()),
        }
    );

    let (state, _) = start_card(user.clone(), meeting(true), "04".to_string());
    let (state, _) =
        card_step(state, CardEvent::MemberLookedUp(Ok(member(MemberTypes::Ordinary))));
    let (state, _) = card_step(state, CardEvent::ModeratorChecked(Ok(false)));
    let (_, action) = card_step(state, CardEvent::Queued(Err(Error::RequestQueueFull)));
    assert_eq!(action, CardAction::Fail { notice: None, error: Error::RequestQueueFull });
}

#[test]
fn card_onboard_check_in() {
    let user = Requester::Scanner(99);
    let (_, action) = start_card_onboard(user.clone(), meeting(false), "bob", "04");
    assert_eq!(action, CardAction::Fail { notice: None, error: Error::MeetingNotActive });

    let (state, action) = start_card_onboard(user.clone(), meeting(true), "bob", "04#x");
    assert_eq!(
        action,
        CardAction::Onboard { card_uid: "04#x".to_string(), kth_id: "bob".to_string() }
    );
    let (state, action) = card_step(state, CardEvent::Onboarded(Ok(())));
    assert_eq!(action, CardAction::LookUpMember { card_uid: "04#x".to_string() });
    let (_, action) = card_step(
        state,
        CardEvent::MemberLookedUp(Err(Error::CardNotExisting("04#x".to_string()))),
    );
    assert_eq!(
        action,
        CardAction::Fail { notice: None, error: Error::CardNotExisting("04#x".to_string()) }
    );

    let (state, action) = start_card_onboard(user.clone(), meeting(true), "a#b", "c");
    assert_eq!(action, CardAction::Onboard { card_uid: "b#c".to_string(), kth_id: "a".to_string() });
    let (_, action) =
        card_step(state, CardEvent::Onboarded(Err(Error::VoteItRequestFail("sso".to_string()))));
    assert_eq!(
        action,
        CardAction::Fail { notice: None, error: Error::VoteItRequestFail("sso".to_string()) }
    );
}

#[test]
fn worker_job_delivers_with_backoff() {
    let req = VoteItRequest {
        meeting_id: 3,
        voteit_token: "t".to_string(),
        email: "e@kth.se".to_string(),
        perms: Permissions::from_bits_retain(0b11111),
    };
    let mut job = start_job(Action::Left, req);
    assert_eq!(job.request.perms.bits(), 0b10001);
    assert_eq!(job_step(&mut job, Delivery::Unreachable), RetryStep::Wait(1));
    assert_eq!(job_step(&mut job, Delivery::Unreachable), RetryStep::Wait(2));
    assert_eq!(job.sleep, 4);
    assert_eq!(job_step(&mut job, Delivery::Sent), RetryStep::Done);
    assert_eq!(job.action, Action::Left);
}
