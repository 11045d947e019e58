//! The decisions of the worker that sends [`VoteItRequest`]s to VoteIT:
//! what a member keeps after leaving, and how failed requests are retried.

use vstd::prelude::*;
use crate::db::Action;
use crate::server::Error;
use crate::voteit::{
    has_flag, role_names, Permissions, VoteItRequest, MODERATOR_BIT, PARTICIPANT_BIT, VOTER_BIT,
};

verus! {

/// Sets the max length of the multi-producer-single-consumer queue which all [`VoteItRequest`]s
/// are added to.
pub const WORKER_CHANNEL_SIZE: usize = 64;

/// The permissions a member has in VoteIT after an attendance update: an
/// entering member keeps all of theirs, a leaving one keeps only the right
/// to take part and the moderator role.
pub open spec fn permissions_after_spec(action: Action, perms: Permissions) -> Permissions {
    match action {
        Action::Entered => perms,
        Action::Left => Permissions { bits: perms.bits & (PARTICIPANT_BIT | MODERATOR_BIT) },
    }
}

/// The request that is sent to VoteIT once the database has recorded an
/// entry or a leave.
pub fn request_after(action: Action, req: VoteItRequest) -> (r: VoteItRequest)
    ensures
        r.meeting_id == req.meeting_id,
        r.voteit_token == req.voteit_token,
        r.email == req.email,
        r.perms == permissions_after_spec(action, req.perms),
        action == Action::Entered ==> r.perms == req.perms,
{
    let mut req = req;
    match action {
        Action::Entered => {},
        Action::Left => {
            req.perms = req.perms.intersection(
                Permissions::default().union(Permissions::moderator()),
            );
        },
    }
    req
}

/// How one attempt to send a request to VoteIT ended.
#[derive(Debug, Clone, Copy, PartialEq, Eq, Structural)]
pub enum Delivery {
    /// VoteIT took the request.
    Sent,
    /// VoteIT could not be reached.
    Unreachable,
    /// The request could not be made at all.
    Refused,
}

/// Sorts the result of an attempt: a failure of the HTTP request means
/// VoteIT could not be reached; any other error means the request could
/// not be made.
pub fn delivery_of(result: &Result<(), Error>) -> (r: Delivery)
    ensures
        *result is Ok ==> r == Delivery::Sent,
        (*result matches Err(Error::VoteItRequestFail(_))) ==> r == Delivery::Unreachable,
        *result matches Err(e) ==> (!(e is VoteItRequestFail) ==> r == Delivery::Refused),
{
    match result {
        Ok(_) => Delivery::Sent,
        Err(Error::VoteItRequestFail(_)) => Delivery::Unreachable,
        Err(_) => Delivery::Refused,
    }
}

/// The wait after the first failed attempt, in seconds.
pub const FIRST_RETRY_WAIT_SECS: u64 = 1;

/// The longest wait between two attempts, in seconds; a failure after it
/// gives the request up.
pub const LAST_RETRY_WAIT_SECS: u64 = 64;

/// What the worker does after an attempt.
#[derive(Debug, Clone, Copy, PartialEq, Eq, Structural)]
pub enum RetryStep {
    /// The request went through; the worker logs it and moves on.
    Done,
    /// The worker waits this many seconds and tries again.
    Wait(u64),
    /// VoteIT has been unreachable for too long; the request is dropped
    /// with an error in the log.
    GiveUp,
    /// The request could not be made; it is dropped.
    Drop,
}

/// The step after an attempt that ended with `outcome` while the next
/// wait would be `sleep` seconds, and the wait after that: waits double
/// until one of more than 64 seconds would be due, at which point the
/// request is given up.
pub open spec fn retry_step(sleep: u64, outcome: Delivery) -> (RetryStep, u64) {
    match outcome {
        Delivery::Sent => (RetryStep::Done, sleep),
        Delivery::Refused => (RetryStep::Drop, sleep),
        Delivery::Unreachable => if sleep > LAST_RETRY_WAIT_SECS {
            (RetryStep::GiveUp, sleep)
        } else {
            (RetryStep::Wait(sleep), (2 * sleep) as u64)
        },
    }
}

/// Decides what the worker does after an attempt; see [`retry_step`].
pub fn next_retry(sleep: u64, outcome: Delivery) -> (r: (RetryStep, u64))
    ensures
        r == retry_step(sleep, outcome),
        outcome == Delivery::Sent ==> r.0 == RetryStep::Done,
        outcome == Delivery::Refused ==> r.0 == RetryStep::Drop,
{
    match outcome {
        Delivery::Sent => (RetryStep::Done, sleep),
        Delivery::Refused => (RetryStep::Drop, sleep),
        Delivery::Unreachable => {
            if sleep > LAST_RETRY_WAIT_SECS {
                (RetryStep::GiveUp, sleep)
            } else {
                (RetryStep::Wait(sleep), 2 * sleep)
            }
        },
    }
}

/// A run of at most `fuel` attempts that all find VoteIT unreachable,
/// starting with the next wait at `sleep`: how many attempts it makes
/// before it gives up, and how many seconds it waits in total.
pub open spec fn failing_run(sleep: u64, fuel: nat) -> (nat, int)
    decreases fuel,
{
    if fuel == 0 {
        (0, 0)
    } else {
        match retry_step(sleep, Delivery::Unreachable) {
            (RetryStep::Wait(w), next) => {
                let (attempts, waited) = failing_run(next, (fuel - 1) as nat);
                (attempts + 1, waited + w)
            },
            _ => (1, 0),
        }
    }
}

/// The retry budget: when VoteIT stays unreachable, the worker makes 8
/// attempts, waiting 1, 2, 4, ... 64 seconds between them, 127 seconds in
/// total, and then gives the request up.
pub proof fn lemma_retry_budget(fuel: nat)
    requires
        fuel >= 8,
    ensures
        failing_run(FIRST_RETRY_WAIT_SECS, fuel) == (8nat, 127int),
{
    reveal_with_fuel(failing_run, 9);
    assert(retry_step(128, Delivery::Unreachable).0 == RetryStep::GiveUp);
}


/// A member who leaves a meeting loses the right to vote, and keeps at
/// most the right to take part and the moderator role.
pub proof fn lemma_leaving_revokes_suffrage(perms: Permissions)
    ensures
        !has_flag(permissions_after_spec(Action::Left, perms).bits, VOTER_BIT),
        role_names(permissions_after_spec(Action::Left, perms).bits).len() <= 2,
        has_flag(perms.bits, PARTICIPANT_BIT) ==> has_flag(
            permissions_after_spec(Action::Left, perms).bits,
            PARTICIPANT_BIT,
        ),
        has_flag(perms.bits, MODERATOR_BIT) ==> has_flag(
            permissions_after_spec(Action::Left, perms).bits,
            MODERATOR_BIT,
        ),
{
    let b = perms.bits;
    let kept = b & (PARTICIPANT_BIT | MODERATOR_BIT);
    assert(kept & 8u8 != 8u8 && kept & 2u8 != 2u8 && kept & 4u8 != 4u8) by (bit_vector)
        requires
            kept == b & (1u8 | 16u8),
    ;
    assert(b & 1u8 == 1u8 ==> kept & 1u8 == 1u8) by (bit_vector)
        requires
            kept == b & (1u8 | 16u8),
    ;
    assert(b & 16u8 == 16u8 ==> kept & 16u8 == 16u8) by (bit_vector)
        requires
            kept == b & (1u8 | 16u8),
    ;
}


/// One request that the worker is delivering to VoteIT: the request as it
/// is sent, the attendance change it reports, and the wait before the next
/// attempt should this one fail.
#[derive(Debug, PartialEq, Eq)]
pub struct WorkerJob {
    pub request: VoteItRequest,
    pub action: Action,
    pub sleep: u64,
}

/// Starts delivering a request once the database has recorded `action`:
/// the request carries the permissions the member has after it, and the
/// first wait is one second.
pub fn start_job(action: Action, req: VoteItRequest) -> (r: WorkerJob)
    ensures
        r.request.meeting_id == req.meeting_id,
        r.request.voteit_token == req.voteit_token,
        r.request.email == req.email,
        r.request.perms == permissions_after_spec(action, req.perms),
        r.action == action,
        r.sleep == FIRST_RETRY_WAIT_SECS,
{
    WorkerJob { request: request_after(action, req), action, sleep: FIRST_RETRY_WAIT_SECS }
}

/// Records how an attempt ended and says what to do next; see
/// [`retry_step`].
pub fn job_step(job: &mut WorkerJob, outcome: Delivery) -> (r: RetryStep)
    ensures
        (r, final(job).sleep) == retry_step(old(job).sleep, outcome),
        final(job).request == old(job).request,
        final(job).action == old(job).action,
{
    let (step, next) = next_retry(job.sleep, outcome);
    job.sleep = next;
    step
}


/// Entering law: an attendance update for a member who enters sends their
/// permissions as they are, with no right added or removed.
pub proof fn lemma_entering_keeps_permissions(perms: Permissions)
    ensures
        permissions_after_spec(Action::Entered, perms) == perms,
        permissions_after_spec(Action::Entered, perms).bits == perms.bits,
        has_flag(permissions_after_spec(Action::Entered, perms).bits, VOTER_BIT) <==> has_flag(
            perms.bits,
            VOTER_BIT,
        ),
{
}

/// Leaving law: what a leaving member keeps is a part of what they had.
pub proof fn lemma_leaving_only_removes(perms: Permissions, flag: u8)
    ensures
        has_flag(permissions_after_spec(Action::Left, perms).bits, flag) && flag != 0 ==> has_flag(
            perms.bits,
            flag,
        ),
{
    let b = perms.bits;
    assert((b & (1u8 | 16u8)) & flag == flag && flag != 0 ==> b & flag == flag) by (bit_vector);
}

/// Retry law: for every wait, an attempt that VoteIT took ends the
/// delivery, an attempt that could not be made drops the request, and
/// neither changes the wait; an unreachable VoteIT makes the worker wait
/// the current wait and double it while that wait is at most 64 seconds,
/// and give up once it is longer.
pub proof fn lemma_retry_outcomes(sleep: u64)
    ensures
        retry_step(sleep, Delivery::Sent) == (RetryStep::Done, sleep),
        retry_step(sleep, Delivery::Refused) == (RetryStep::Drop, sleep),
        sleep <= LAST_RETRY_WAIT_SECS ==> retry_step(sleep, Delivery::Unreachable) == (
            RetryStep::Wait(sleep),
            (2 * sleep) as u64,
        ),
        sleep > LAST_RETRY_WAIT_SECS ==> retry_step(sleep, Delivery::Unreachable).0
            == RetryStep::GiveUp,
        forall|o: Delivery| #[trigger] retry_step(sleep, o).0 == RetryStep::Done <==> o
            == Delivery::Sent,
{
}

} // verus!
