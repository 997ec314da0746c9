//! Room-membership acquisition: one state machine per invitation. An
//! invitation to a room outside the authorized set is declined at once; an
//! authorized one is accepted with retries, doubling the delay after each
//! failure, until the cumulative wait would exceed a fixed ceiling.
//!
//! The machine only decides; performing the join, the decline, and the sleep
//! is the caller's business, which reports each outcome back.

use vstd::prelude::*;
use vstd::arithmetic::power2::pow2;
use vstd::arithmetic::power2::lemma2_to64;
use vstd::arithmetic::power2::lemma_pow2_unfold;

use crate::strings::str_eq;

verus! {

/// The first retry delay, in seconds.
pub const BACKOFF_BASE_SECS: u64 = 2;

/// Retrying stops once the cumulative wait would exceed this, in seconds.
pub const BACKOFF_CEILING_SECS: u64 = 3600;

/// Where an invitation stands.
#[derive(Clone, Copy, Debug, PartialEq, Eq, Structural)]
pub enum MembershipStatus {
    Pending,
    Joined,
    DeclinedUnauthorized,
    Abandoned,
}

/// The state of one pending invitation.
pub struct MembershipState {
    pub room_id: String,
    pub attempt: u64,
    pub next_delay: u64,
    pub waited: u64,
    pub status: MembershipStatus,
}

/// What the caller must do next with an invitation.
#[derive(Clone, Copy, Debug, PartialEq, Eq, Structural)]
pub enum MembershipAction {
    /// Decline the invitation; the room is not authorized.
    Decline,
    /// Attempt to accept the invitation.
    AttemptJoin,
    /// Sleep this many seconds, then attempt again.
    Sleep(u64),
    /// Stop retrying and report the failure.
    GiveUp,
}

/// Whether `room_id` is one of the authorized rooms.
pub open spec fn room_authorized(rooms: Seq<String>, room_id: Seq<char>) -> bool {
    exists|i: int| 0 <= i < rooms.len() && rooms[i]@ == room_id
}

/// Checks whether `room_id` is one of the authorized rooms.
pub fn is_authorized_room(rooms: &Vec<String>, room_id: &str) -> (r: bool)
    ensures
        r == room_authorized(rooms@, room_id@),
{
    let mut i: usize = 0;
    while i < rooms.len()
        invariant
            i <= rooms@.len(),
            forall|j: int| 0 <= j < i ==> rooms@[j]@ != room_id@,
        decreases rooms@.len() - i,
    {
        if str_eq(rooms[i].as_str(), room_id) {
            return true;
        }
        i += 1;
    }
    false
}

/// A pending state's counters follow the doubling schedule: the next delay
/// is the base doubled once per attempt, and the cumulative wait is the sum
/// of all delays slept so far, within the ceiling.
pub open spec fn backoff_wf(s: MembershipState) -> bool {
    &&& s.next_delay == BACKOFF_BASE_SECS * pow2(s.attempt as nat)
    &&& s.waited == BACKOFF_BASE_SECS * (pow2(s.attempt as nat) - 1)
    &&& s.waited <= BACKOFF_CEILING_SECS
    &&& s.attempt <= 10
}

/// Receives an invitation: an unauthorized room is declined immediately,
/// with no retry; an authorized one enters the pending state with the base
/// delay and zero attempts.
pub fn on_invitation(room_id: String, authorized_rooms: &Vec<String>) -> (r: (
    MembershipState,
    MembershipAction,
))
    ensures
        r.0.room_id == room_id,
        r.0.attempt == 0,
        r.0.next_delay == BACKOFF_BASE_SECS,
        r.0.waited == 0,
        backoff_wf(r.0),
        room_authorized(authorized_rooms@, room_id@) ==> r.0.status == MembershipStatus::Pending
            && r.1 == MembershipAction::AttemptJoin,
        !room_authorized(authorized_rooms@, room_id@) ==> r.0.status
            == MembershipStatus::DeclinedUnauthorized && r.1 == MembershipAction::Decline,
{
    proof {
        lemma2_to64();
    }
    if is_authorized_room(authorized_rooms, room_id.as_str()) {
        (
            MembershipState {
                room_id,
                attempt: 0,
                next_delay: BACKOFF_BASE_SECS,
                waited: 0,
                status: MembershipStatus::Pending,
            },
            MembershipAction::AttemptJoin,
        )
    } else {
        (
            MembershipState {
                room_id,
                attempt: 0,
                next_delay: BACKOFF_BASE_SECS,
                waited: 0,
                status: MembershipStatus::DeclinedUnauthorized,
            },
            MembershipAction::Decline,
        )
    }
}

/// A join attempt succeeded: the invitation is settled.
pub fn on_join_success(s: MembershipState) -> (t: MembershipState)
    requires
        s.status == MembershipStatus::Pending,
    ensures
        t == (MembershipState { status: MembershipStatus::Joined, ..s }),
{
    MembershipState { status: MembershipStatus::Joined, ..s }
}

/// What a failed join attempt leads to: abandonment once the cumulative
/// wait would exceed the ceiling; otherwise a sleep of the current delay,
/// after which the delay has doubled and the attempt count grown by one.
pub open spec fn failure_step(s: MembershipState) -> (MembershipState, MembershipAction) {
    if s.waited + s.next_delay > BACKOFF_CEILING_SECS {
        (MembershipState { status: MembershipStatus::Abandoned, ..s }, MembershipAction::GiveUp)
    } else {
        (
            MembershipState {
                attempt: (s.attempt + 1) as u64,
                next_delay: (2 * s.next_delay) as u64,
                waited: (s.waited + s.next_delay) as u64,
                ..s
            },
            MembershipAction::Sleep(s.next_delay),
        )
    }
}

/// A join attempt failed: decides between another (delayed) attempt and
/// giving up, exactly as [`failure_step`] says.
pub fn on_join_failure(s: MembershipState) -> (r: (MembershipState, MembershipAction))
    requires
        s.status == MembershipStatus::Pending,
        backoff_wf(s),
    ensures
        r == failure_step(s),
        r.1 is Sleep ==> backoff_wf(r.0) && r.0.status == MembershipStatus::Pending,
{
    proof {
        lemma2_to64();
        lemma_backoff_step(s);
    }
    if s.waited + s.next_delay > BACKOFF_CEILING_SECS {
        (MembershipState { status: MembershipStatus::Abandoned, ..s }, MembershipAction::GiveUp)
    } else {
        (
            MembershipState {
                attempt: s.attempt + 1,
                next_delay: 2 * s.next_delay,
                waited: s.waited + s.next_delay,
                ..s
            },
            MembershipAction::Sleep(s.next_delay),
        )
    }
}

/// The backoff law: from any well-formed pending state, a failure either
/// schedules a sleep of exactly the current delay, leaving a well-formed
/// state whose delay has doubled (so the delays form the sequence base,
/// 2 * base, 4 * base, ...), or abandons the invitation, and it abandons
/// exactly when the cumulative wait would exceed the ceiling.
pub proof fn lemma_backoff_step(s: MembershipState)
    requires
        backoff_wf(s),
    ensures
        s.waited + s.next_delay <= BACKOFF_CEILING_SECS ==> {
            &&& failure_step(s).1 == MembershipAction::Sleep(s.next_delay)
            &&& failure_step(s).0.next_delay == 2 * s.next_delay
            &&& failure_step(s).0.next_delay == BACKOFF_BASE_SECS * pow2((s.attempt + 1) as nat)
            &&& failure_step(s).0.waited == s.waited + s.next_delay
            &&& failure_step(s).0.status == s.status
            &&& backoff_wf(failure_step(s).0)
        },
        s.waited + s.next_delay > BACKOFF_CEILING_SECS ==> failure_step(s).0.status
            == MembershipStatus::Abandoned && failure_step(s).1 == MembershipAction::GiveUp,
{
    lemma2_to64();
    let a = s.attempt as nat;
    lemma_pow2_unfold((a + 1) as nat);
    if s.waited + s.next_delay <= BACKOFF_CEILING_SECS {
        assert(pow2((a + 1) as nat) == 2 * pow2(a));
        if s.attempt >= 10 {
            assert(pow2(10) == 1024);
            assert(s.attempt == 10);
            assert(s.waited == BACKOFF_BASE_SECS * (pow2(10) - 1));
            assert(false);
        }
        assert(failure_step(s).0.waited == BACKOFF_BASE_SECS * (pow2((a + 1) as nat) - 1)) by {
            assert(s.waited + s.next_delay == BACKOFF_BASE_SECS * (pow2(a) - 1) + BACKOFF_BASE_SECS
                * pow2(a));
        }
    }
}

} // verus!
