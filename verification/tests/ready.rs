use dsh_desktop::ready::{
    wait_until_ready, ReadyOutcome, WaitAnswer, Waiting, READY_POLL_MILLIS, STARTUP_TIMEOUT_SECS,
};

const TIMEOUT: u128 = 60_000_000_000;

/// Waits through the given rounds of time, child and connection.
fn wait(rounds: &[(u128, Option<&str>, bool)]) -> Waiting {
    let mut state = wait_until_ready();
    for (nanos, status, connected) in rounds {
        state = state.answer(TIMEOUT, WaitAnswer::Elapsed(*nanos));
        state = state.answer(TIMEOUT, WaitAnswer::Child(status.map(|s| s.to_string())));
        state = state.answer(TIMEOUT, WaitAnswer::Connected(*connected));
        state = state.answer(TIMEOUT, WaitAnswer::Paused);
    }
    state
}

#[test]
fn a_connection_makes_it_ready() {
    assert_eq!(wait(&[(0, None, true)]), Waiting::Over(ReadyOutcome::Ready));
    assert_eq!(
        wait(&[(0, None, false), (1, None, false), (2, None, true)]),
        Waiting::Over(ReadyOutcome::Ready)
    );
}

#[test]
fn an_exit_comes_before_a_connection() {
    assert_eq!(
        wait(&[(0, Some("exit status: 1"), true)]),
        Waiting::Over(ReadyOutcome::Exited("exit status: 1".to_string()))
    );
}

#[test]
fn the_time_comes_before_everything() {
    assert_eq!(
        wait(&[(TIMEOUT, Some("exit status: 1"), true)]),
        Waiting::Over(ReadyOutcome::TimedOut)
    );
    assert_eq!(wait(&[(TIMEOUT - 1, None, true)]), Waiting::Over(ReadyOutcome::Ready));
}

#[test]
fn an_outcome_is_final() {
    let over = wait(&[(0, None, true), (TIMEOUT, Some("x"), false)]);
    assert_eq!(over, Waiting::Over(ReadyOutcome::Ready));
}

#[test]
fn waits_on_while_nothing_happens() {
    assert_eq!(wait(&[(0, None, false)]), Waiting::Clock);
    assert_eq!(wait_until_ready().answer(TIMEOUT, WaitAnswer::Connected(true)), Waiting::Clock);
    assert_eq!(STARTUP_TIMEOUT_SECS, 60);
    assert_eq!(READY_POLL_MILLIS, 150);
}
