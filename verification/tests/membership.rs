use prololo::membership::on_invitation;
use prololo::membership::on_join_failure;
use prololo::membership::on_join_success;
use prololo::membership::MembershipAction;
use prololo::membership::MembershipStatus;
use prololo::membership::BACKOFF_CEILING_SECS;

fn authorized() -> Vec<String> {
    vec!["!room-a:example.org".to_string(), "!room-b:example.org".to_string()]
}

#[test]
fn unauthorized_invitation_is_declined_without_retry() {
    let (state, action) = on_invitation("!intruder:example.org".to_string(), &authorized());
    assert_eq!(state.status, MembershipStatus::DeclinedUnauthorized);
    assert_eq!(action, MembershipAction::Decline);
    assert_eq!(state.attempt, 0);
}

#[test]
fn authorized_invitation_is_attempted() {
    let (state, action) = on_invitation("!room-b:example.org".to_string(), &authorized());
    assert_eq!(state.status, MembershipStatus::Pending);
    assert_eq!(action, MembershipAction::AttemptJoin);
    let joined = on_join_success(state);
    assert_eq!(joined.status, MembershipStatus::Joined);
}

#[test]
fn delays_double_until_the_ceiling_is_reached() {
    let (mut state, action) = on_invitation("!room-a:example.org".to_string(), &authorized());
    assert_eq!(action, MembershipAction::AttemptJoin);

    let mut slept: Vec<u64> = Vec::new();
    loop {
        let (next, action) = on_join_failure(state);
        state = next;
        match action {
            MembershipAction::Sleep(delay) => slept.push(delay),
            MembershipAction::GiveUp => break,
            other => panic!("unexpected action {:?}", other),
        }
    }

    // Successive delays double from the base of two seconds.
    assert_eq!(slept, vec![2, 4, 8, 16, 32, 64, 128, 256, 512, 1024]);
    // The manager abandoned exactly when one more sleep would push the
    // cumulative wait past the ceiling.
    let total: u64 = slept.iter().sum();
    assert!(total <= BACKOFF_CEILING_SECS);
    assert!(total + 2048 > BACKOFF_CEILING_SECS);
    assert_eq!(state.status, MembershipStatus::Abandoned);
}
