use karon::server::worker::{
    delivery_of, next_retry, request_after, Delivery, RetryStep, FIRST_RETRY_WAIT_SECS,
};
use karon::db::Action;
use karon::server::Error;
use karon::sso::MemberTypes;
use karon::voteit::{body_builder, Permissions, VoteItRequest};

#[test]
fn default_is_participant_only() {
    let p = Permissions::default();
    assert_eq!(p.bits(), 1);
    assert_eq!(p.to_voteit_strings(), vec!["pa"]);
    assert!(!p.has_suffrage());
}

#[test]
fn no_permissions_has_no_roles() {
    let p = Permissions::no_permissions();
    assert_eq!(p.bits(), 0);
    assert!(p.to_voteit_strings().is_empty());
    assert!(!p.contains(Permissions::participant()));
}

#[test]
fn roles_come_in_declaration_order() {
    let p = Permissions::moderator()
        .union(Permissions::voter())
        .union(Permissions::participant());
    assert_eq!(p.to_voteit_strings(), vec!["pa", "pv", "mo"]);
    let all = Permissions::from_bits_retain(0b11111);
    assert_eq!(all.to_voteit_strings(), vec!["pa", "di", "pr", "pv", "mo"]);
}

#[test]
fn unknown_bits_name_no_role() {
    let p = Permissions::from_bits_retain(0b1010_0010);
    assert_eq!(p.to_voteit_strings(), vec!["di"]);
}

#[test]
fn member_types_grant_permissions() {
    let ordinary = Permissions::from(MemberTypes::Ordinary);
    assert_eq!(ordinary.to_voteit_strings(), vec!["pa", "di", "pr", "pv"]);
    assert!(ordinary.has_suffrage());
    let alumni = Permissions::from(MemberTypes::Alumni);
    assert_eq!(alumni.to_voteit_strings(), vec!["pa", "di", "pr"]);
    assert!(!alumni.has_suffrage());
    for t in [MemberTypes::Guest, MemberTypes::Junior, MemberTypes::Honorary] {
        assert_eq!(Permissions::from(t).to_voteit_strings(), vec!["pa", "di"]);
    }
    assert_eq!(Permissions::from(MemberTypes::NonMember).bits(), 0);
}

#[test]
fn intersection_and_contains() {
    let p = Permissions::from_bits_retain(0b01011);
    assert_eq!(p.intersection(Permissions::from_bits_retain(0b10001)).bits(), 1);
    assert!(p.contains(Permissions::voter()));
    assert!(!p.contains(Permissions::proposer()));
}

#[test]
fn body_builder_lists_roles_and_invitee() {
    let body = body_builder("abc@kth.se", Permissions::from(MemberTypes::Alumni));
    assert_eq!(body.roles, vec!["pa", "di", "pr"]);
    assert_eq!(body.data.len(), 1);
    assert_eq!(body.data[0].email, "abc@kth.se");
}

fn request(perms: Permissions) -> VoteItRequest {
    VoteItRequest {
        meeting_id: 7,
        voteit_token: "tok".to_string(),
        email: "abc@kth.se".to_string(),
        perms,
    }
}

#[test]
fn leaving_keeps_participant_and_moderator() {
    let perms = Permissions::from(MemberTypes::Ordinary).union(Permissions::moderator());
    let left = request_after(Action::Left, request(perms));
    assert_eq!(left.perms.to_voteit_strings(), vec!["pa", "mo"]);
    assert!(!left.perms.has_suffrage());
    assert_eq!(left.email, "abc@kth.se");
    let entered = request_after(Action::Entered, request(perms));
    assert_eq!(entered.perms, perms);
}

#[test]
fn retry_schedule_waits_127_seconds_then_gives_up() {
    let mut sleep = FIRST_RETRY_WAIT_SECS;
    let mut waited = 0;
    let mut attempts = 0;
    loop {
        attempts += 1;
        let (step, next) = next_retry(sleep, Delivery::Unreachable);
        match step {
            RetryStep::Wait(w) => waited += w,
            RetryStep::GiveUp => break,
            other => panic!("unexpected step {:?}", other),
        }
        sleep = next;
    }
    assert_eq!(attempts, 8);
    assert_eq!(waited, 127);
}

#[test]
fn retry_stops_on_success_or_other_error() {
    assert_eq!(next_retry(4, Delivery::Sent).0, RetryStep::Done);
    assert_eq!(next_retry(4, Delivery::Refused).0, RetryStep::Drop);
    assert_eq!(next_retry(64, Delivery::Unreachable), (RetryStep::Wait(64), 128));
    assert_eq!(next_retry(128, Delivery::Unreachable).0, RetryStep::GiveUp);
}

#[test]
fn delivery_classifies_results() {
    assert_eq!(delivery_of(&Ok(())), Delivery::Sent);
    assert_eq!(
        delivery_of(&Err(Error::VoteItRequestFail("timeout".to_string()))),
        Delivery::Unreachable
    );
    assert_eq!(
        delivery_of(&Err(Error::ReqestParseError("x".to_string()))),
        Delivery::Refused
    );
}
