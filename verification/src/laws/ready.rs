//! Laws of the wait for the backend.

use vstd::prelude::*;

#[allow(unused_imports)]
use crate::ready::{
    self, READY_POLL_MILLIS, ReadyOutcome, ReadyOutcomeView, STARTUP_TIMEOUT_SECS, WaitAnswer,
    WaitAnswerView, Waiting, WaitingView,
};

verus! {

/// The questions come in order: while there is time left, the child is asked
/// about before a connection is tried, a connection is tried only to a child
/// that has not exited, and a pause comes only behind a connection that failed.
pub proof fn lemma_wait_asks_in_order(timeout: u128, nanos: u128, status: Seq<char>)
    ensures
        nanos < timeout ==> ready::wait_next(
            WaitingView::Clock,
            timeout,
            WaitAnswerView::Elapsed(nanos),
        ) == WaitingView::Child,
        nanos >= timeout ==> ready::wait_next(
            WaitingView::Clock,
            timeout,
            WaitAnswerView::Elapsed(nanos),
        ) == WaitingView::Over(ReadyOutcomeView::TimedOut),
        ready::wait_next(WaitingView::Child, timeout, WaitAnswerView::Child(Some(status)))
            == WaitingView::Over(ReadyOutcomeView::Exited(status)),
        ready::wait_next(WaitingView::Child, timeout, WaitAnswerView::Child(None))
            == WaitingView::Connection,
        ready::wait_next(WaitingView::Connection, timeout, WaitAnswerView::Connected(true))
            == WaitingView::Over(ReadyOutcomeView::Ready),
        ready::wait_next(WaitingView::Connection, timeout, WaitAnswerView::Connected(false))
            == WaitingView::Pause,
        ready::wait_next(WaitingView::Pause, timeout, WaitAnswerView::Paused) == WaitingView::Clock,
{
}

/// An answer to another question than the one asked changes nothing.
pub proof fn lemma_wait_ignores_other_answers(
    state: WaitingView,
    timeout: u128,
    answer: WaitAnswerView,
)
    requires
        state is Clock ==> !(answer is Elapsed),
        state is Child ==> !(answer is Child),
        state is Connection ==> !(answer is Connected),
        state is Pause ==> !(answer is Paused),
    ensures
        ready::wait_next(state, timeout, answer) == state,
{
}

/// What is true of the backend at one moment answers whatever is being asked.
pub open spec fn truthful_answer(
    state: WaitingView,
    nanos: u128,
    status: Option<Seq<char>>,
    connected: bool,
) -> WaitAnswerView {
    match state {
        WaitingView::Clock => WaitAnswerView::Elapsed(nanos),
        WaitingView::Child => WaitAnswerView::Child(status),
        WaitingView::Connection => WaitAnswerView::Connected(connected),
        _ => WaitAnswerView::Paused,
    }
}

/// Where every question is answered by what is true, a backend that has exited
/// ends the wait at the second answer, with its status, whatever listens on its
/// port; one that listens ends it at the third; and one that does neither leads,
/// behind a pause, to the next look at the time.
pub proof fn lemma_truthful_round(
    timeout: u128,
    nanos: u128,
    status: Option<Seq<char>>,
    connected: bool,
)
    requires
        nanos < timeout,
    ensures
        ({
            let first = ready::wait_next(
                WaitingView::Clock,
                timeout,
                truthful_answer(WaitingView::Clock, nanos, status, connected),
            );
            let second = ready::wait_next(
                first,
                timeout,
                truthful_answer(first, nanos, status, connected),
            );
            let third = ready::wait_next(
                second,
                timeout,
                truthful_answer(second, nanos, status, connected),
            );
            let fourth = ready::wait_next(
                third,
                timeout,
                truthful_answer(third, nanos, status, connected),
            );
            &&& status matches Some(s) ==> second == WaitingView::Over(ReadyOutcomeView::Exited(s))
            &&& status is None && connected ==> third == WaitingView::Over(ReadyOutcomeView::Ready)
            &&& status is None && !connected ==> third == WaitingView::Pause && fourth
                == WaitingView::Clock
        }),
{
}

/// An outcome, a wait and an answer say what they hold.
pub proof fn lemma_wait_says(
    status: String,
    outcome: ReadyOutcome,
    nanos: u128,
    connected: bool,
)
    ensures
        ReadyOutcome::Ready@ == ReadyOutcomeView::Ready,
        ReadyOutcome::Exited(status)@ == ReadyOutcomeView::Exited(status@),
        ReadyOutcome::TimedOut@ == ReadyOutcomeView::TimedOut,
        Waiting::Clock@ == WaitingView::Clock,
        Waiting::Child@ == WaitingView::Child,
        Waiting::Connection@ == WaitingView::Connection,
        Waiting::Pause@ == WaitingView::Pause,
        Waiting::Over(outcome)@ == WaitingView::Over(outcome@),
        WaitAnswer::Elapsed(nanos)@ == WaitAnswerView::Elapsed(nanos),
        WaitAnswer::Child(Some(status))@ == WaitAnswerView::Child(Some(status@)),
        WaitAnswer::Child(None)@ == WaitAnswerView::Child(None),
        WaitAnswer::Connected(connected)@ == WaitAnswerView::Connected(connected),
        WaitAnswer::Paused@ == WaitAnswerView::Paused,
{
}

/// A backend has a minute to listen, and is tried about seven times a second.
pub proof fn lemma_one_minute()
    ensures
        STARTUP_TIMEOUT_SECS == 60,
        READY_POLL_MILLIS == 150,
{
}

} // verus!
