//! Waiting for the backend to listen.
//!
//! Until the time is up, the child is checked for an early exit, a connection
//! to its port is tried, and after a pause both are done again.

use vstd::prelude::*;

verus! {

/// How long the backend may take to listen, in seconds.
pub const STARTUP_TIMEOUT_SECS: u64 = 60;

/// How long to pause between two tries, in milliseconds.
pub const READY_POLL_MILLIS: u64 = 150;

/// How the wait ended.
#[derive(Debug, PartialEq, Eq)]
pub enum ReadyOutcome {
    /// The backend listens.
    Ready,
    /// The child exited, with the status given.
    Exited(String),
    /// The time was up.
    TimedOut,
}

/// What is being asked while the backend is waited for, or the end of the wait.
#[derive(Debug, PartialEq, Eq)]
pub enum Waiting {
    /// How much time has passed.
    Clock,
    /// Whether the child has exited.
    Child,
    /// Whether a connection can be made.
    Connection,
    /// A pause is to be made.
    Pause,
    /// The wait is over.
    Over(ReadyOutcome),
}

/// The answer to what is being asked.
#[derive(Debug, PartialEq, Eq)]
pub enum WaitAnswer {
    /// The time that has passed, in nanoseconds.
    Elapsed(u128),
    /// The status that the child exited with, if it has exited.
    Child(Option<String>),
    /// Whether a connection was made.
    Connected(bool),
    /// The pause is over.
    Paused,
}

/// What a `ReadyOutcome` says.
pub enum ReadyOutcomeView {
    Ready,
    Exited(Seq<char>),
    TimedOut,
}

/// What a `Waiting` says.
pub enum WaitingView {
    Clock,
    Child,
    Connection,
    Pause,
    Over(ReadyOutcomeView),
}

/// What a `WaitAnswer` says.
pub enum WaitAnswerView {
    Elapsed(u128),
    Child(Option<Seq<char>>),
    Connected(bool),
    Paused,
}

impl View for ReadyOutcome {
    type V = ReadyOutcomeView;

    open spec fn view(&self) -> ReadyOutcomeView {
        match self {
            ReadyOutcome::Ready => ReadyOutcomeView::Ready,
            ReadyOutcome::Exited(status) => ReadyOutcomeView::Exited(status@),
            ReadyOutcome::TimedOut => ReadyOutcomeView::TimedOut,
        }
    }
}

impl View for Waiting {
    type V = WaitingView;

    open spec fn view(&self) -> WaitingView {
        match self {
            Waiting::Clock => WaitingView::Clock,
            Waiting::Child => WaitingView::Child,
            Waiting::Connection => WaitingView::Connection,
            Waiting::Pause => WaitingView::Pause,
            Waiting::Over(outcome) => WaitingView::Over(outcome@),
        }
    }
}

impl View for WaitAnswer {
    type V = WaitAnswerView;

    open spec fn view(&self) -> WaitAnswerView {
        match self {
            WaitAnswer::Elapsed(nanos) => WaitAnswerView::Elapsed(*nanos),
            WaitAnswer::Child(status) => WaitAnswerView::Child(crate::text::optional_text(*status)),
            WaitAnswer::Connected(connected) => WaitAnswerView::Connected(*connected),
            WaitAnswer::Paused => WaitAnswerView::Paused,
        }
    }
}

/// What follows an answer, when the wait may take `timeout` nanoseconds. An
/// answer to another question changes nothing.
pub open spec fn wait_next(state: WaitingView, timeout: u128, answer: WaitAnswerView) -> WaitingView {
    match (state, answer) {
        (WaitingView::Clock, WaitAnswerView::Elapsed(nanos)) => if nanos < timeout {
            WaitingView::Child
        } else {
            WaitingView::Over(ReadyOutcomeView::TimedOut)
        },
        (WaitingView::Child, WaitAnswerView::Child(status)) => match status {
            Some(status) => WaitingView::Over(ReadyOutcomeView::Exited(status)),
            None => WaitingView::Connection,
        },
        (WaitingView::Connection, WaitAnswerView::Connected(connected)) => if connected {
            WaitingView::Over(ReadyOutcomeView::Ready)
        } else {
            WaitingView::Pause
        },
        (WaitingView::Pause, WaitAnswerView::Paused) => WaitingView::Clock,
        _ => state,
    }
}

/// Begins to wait for the backend.
pub fn wait_until_ready() -> (res: Waiting)
    ensures
        res@ == WaitingView::Clock,
{
    Waiting::Clock
}

impl Waiting {
    /// Takes the answer to what is being asked. The wait may take `timeout`
    /// nanoseconds.
    pub fn answer(self, timeout: u128, answer: WaitAnswer) -> (res: Waiting)
        ensures
            res@ == wait_next(self@, timeout, answer@),
    {
        match (self, answer) {
            (Waiting::Clock, WaitAnswer::Elapsed(nanos)) => if nanos < timeout {
                Waiting::Child
            } else {
                Waiting::Over(ReadyOutcome::TimedOut)
            },
            (Waiting::Child, WaitAnswer::Child(status)) => match status {
                Some(status) => Waiting::Over(ReadyOutcome::Exited(status)),
                None => Waiting::Connection,
            },
            (Waiting::Connection, WaitAnswer::Connected(connected)) => if connected {
                Waiting::Over(ReadyOutcome::Ready)
            } else {
                Waiting::Pause
            },
            (Waiting::Pause, WaitAnswer::Paused) => Waiting::Clock,
            (state, _) => state,
        }
    }
}

/// One round of the wait: the time, the child, the connection and the pause.
pub open spec fn round(
    timeout: u128,
    nanos: u128,
    status: Option<Seq<char>>,
    connected: bool,
) -> WaitingView {
    let clock = wait_next(WaitingView::Clock, timeout, WaitAnswerView::Elapsed(nanos));
    let child = wait_next(clock, timeout, WaitAnswerView::Child(status));
    let connection = wait_next(child, timeout, WaitAnswerView::Connected(connected));
    wait_next(connection, timeout, WaitAnswerView::Paused)
}

/// A round ends the wait by the first of these that holds: the time is up; the
/// child has exited, even where something answers on its port; a connection was
/// made. If none holds, the next round begins.
pub proof fn lemma_round(
    timeout: u128,
    nanos: u128,
    status: Option<Seq<char>>,
    connected: bool,
)
    ensures
        round(timeout, nanos, status, connected) == (if nanos >= timeout {
            WaitingView::Over(ReadyOutcomeView::TimedOut)
        } else if status is Some {
            WaitingView::Over(ReadyOutcomeView::Exited(status->0))
        } else if connected {
            WaitingView::Over(ReadyOutcomeView::Ready)
        } else {
            WaitingView::Clock
        }),
{
}

/// The outcome of a wait never changes.
pub proof fn lemma_outcome_is_final(
    outcome: ReadyOutcomeView,
    timeout: u128,
    answer: WaitAnswerView,
)
    ensures
        wait_next(WaitingView::Over(outcome), timeout, answer) == WaitingView::Over(outcome),
{
}

/// A backend is taken for ready only on a connection that was made.
pub proof fn lemma_ready_only_when_connected(
    state: WaitingView,
    timeout: u128,
    answer: WaitAnswerView,
)
    requires
        state != WaitingView::Over(ReadyOutcomeView::Ready),
        wait_next(state, timeout, answer) == WaitingView::Over(ReadyOutcomeView::Ready),
    ensures
        state is Connection,
        answer == WaitAnswerView::Connected(true),
{
}

} // verus!
