//! The watchdog over the backend.
//!
//! The backend is started, waited for and watched. Whenever it ends, or does
//! not come up, it is started again after a pause, until the application
//! exits. Its URL is published only while it is known to listen.

use vstd::prelude::*;

use crate::launch::Backend;
use crate::state::AppState;
use crate::status::BackendStatus;

verus! {

/// The pause before a restart, in seconds.
pub const RESTART_DELAY_SECS: u64 = 1;

/// The pause before a restart after an error, in seconds. It is longer, so that
/// a missing backend is not tried over and over.
pub const ERROR_RESTART_DELAY_SECS: u64 = 3;

/// What the watchdog waits for.
#[derive(Debug, PartialEq, Eq)]
pub enum Watchdog {
    /// The start of the backend.
    Starting,
    /// The backend `pid` to listen on `port`.
    AwaitingReady { pid: u32, port: u16, url: String },
    /// The backend to exit; it is ready.
    Serving { pid: u32, url: String },
    /// The backend `pid`, which was not ready in time, to be ended.
    Ending { pid: u32, message: String },
    /// The backend, which did not come up, to be gone.
    Reaping { pid: u32, message: String },
    /// The end of this run to be announced.
    Settling { errored: bool },
    /// The pause before the next start.
    Pausing { errored: bool },
    /// Nothing: the application exits.
    Finished,
}

/// What has happened.
#[derive(Debug, PartialEq, Eq)]
pub enum WatchdogEvent {
    /// The backend was started.
    Started(Backend),
    /// The backend could not be started.
    StartFailed(String),
    /// The backend listens.
    Ready,
    /// The backend exited, with the status given, before it was ready; the end
    /// of what it printed.
    ExitedEarly { status: String, tail: String },
    /// The backend was not ready in time; the end of what it printed.
    TimedOut { tail: String },
    /// The backend was ended.
    Ended,
    /// The backend is gone.
    Gone,
    /// The end of this run was announced.
    Settled,
    /// The pause is over.
    Paused,
}

/// What the watchdog waits for next, and what is announced before that.
#[derive(Debug, PartialEq, Eq)]
pub struct Turn {
    pub watchdog: Watchdog,
    pub announce: Option<BackendStatus>,
}

/// What a `Watchdog` says.
pub enum WatchdogView {
    Starting,
    AwaitingReady { pid: u32, port: u16, url: Seq<char> },
    Serving { pid: u32, url: Seq<char> },
    Ending { pid: u32, message: Seq<char> },
    Reaping { pid: u32, message: Seq<char> },
    Settling { errored: bool },
    Pausing { errored: bool },
    Finished,
}

/// What a `WatchdogEvent` says.
pub enum WatchdogEventView {
    Started { pid: u32, port: u16, url: Seq<char> },
    StartFailed(Seq<char>),
    Ready,
    ExitedEarly { status: Seq<char>, tail: Seq<char> },
    TimedOut { tail: Seq<char> },
    Ended,
    Gone,
    Settled,
    Paused,
}

impl View for Watchdog {
    type V = WatchdogView;

    open spec fn view(&self) -> WatchdogView {
        match self {
            Watchdog::Starting => WatchdogView::Starting,
            Watchdog::AwaitingReady { pid, port, url } => WatchdogView::AwaitingReady {
                pid: *pid,
                port: *port,
                url: url@,
            },
            Watchdog::Serving { pid, url } => WatchdogView::Serving { pid: *pid, url: url@ },
            Watchdog::Ending { pid, message } => WatchdogView::Ending {
                pid: *pid,
                message: message@,
            },
            Watchdog::Reaping { pid, message } => WatchdogView::Reaping {
                pid: *pid,
                message: message@,
            },
            Watchdog::Settling { errored } => WatchdogView::Settling { errored: *errored },
            Watchdog::Pausing { errored } => WatchdogView::Pausing { errored: *errored },
            Watchdog::Finished => WatchdogView::Finished,
        }
    }
}

impl View for WatchdogEvent {
    type V = WatchdogEventView;

    open spec fn view(&self) -> WatchdogEventView {
        match self {
            WatchdogEvent::Started(backend) => WatchdogEventView::Started {
                pid: backend.pid,
                port: backend.port,
                url: backend.url@,
            },
            WatchdogEvent::StartFailed(message) => WatchdogEventView::StartFailed(message@),
            WatchdogEvent::Ready => WatchdogEventView::Ready,
            WatchdogEvent::ExitedEarly { status, tail } => WatchdogEventView::ExitedEarly {
                status: status@,
                tail: tail@,
            },
            WatchdogEvent::TimedOut { tail } => WatchdogEventView::TimedOut { tail: tail@ },
            WatchdogEvent::Ended => WatchdogEventView::Ended,
            WatchdogEvent::Gone => WatchdogEventView::Gone,
            WatchdogEvent::Settled => WatchdogEventView::Settled,
            WatchdogEvent::Paused => WatchdogEventView::Paused,
        }
    }
}

/// The part of the shared state that is the watchdog's, what it waits for, and
/// what it announces.
pub struct TurnView {
    pub pid: Option<u32>,
    pub url: Option<Seq<char>>,
    pub watchdog: WatchdogView,
    pub announce: Option<crate::status::BackendStatusView>,
}

/// What an optional `BackendStatus` says.
pub open spec fn optional_status(status: Option<BackendStatus>) -> Option<
    crate::status::BackendStatusView,
> {
    match status {
        Some(s) => Some(s@),
        None => None,
    }
}

/// The message for a backend that exited before it was ready.
pub open spec fn exited_early_message(status: Seq<char>, tail: Seq<char>) -> Seq<char> {
    "backend exited before ready ("@ + status + ").\n"@ + tail
}

/// The message for a backend that was not ready in time.
pub open spec fn timed_out_message(tail: Seq<char>) -> Seq<char> {
    "backend did not become ready within "@ + crate::text::decimal(
        crate::ready::STARTUP_TIMEOUT_SECS as nat,
    ) + "s.\n"@ + tail
}

/// The top of every run: the backend is started unless the application exits.
pub open spec fn run_begins(
    pid: Option<u32>,
    url: Option<Seq<char>>,
    shutting_down: bool,
) -> TurnView {
    if shutting_down {
        TurnView { pid, url, watchdog: WatchdogView::Finished, announce: None }
    } else {
        TurnView {
            pid,
            url,
            watchdog: WatchdogView::Starting,
            announce: Some(crate::status::starting_status()),
        }
    }
}

/// What follows an event. An event that is not awaited changes nothing.
pub open spec fn watchdog_next(
    pid: Option<u32>,
    url: Option<Seq<char>>,
    shutting_down: bool,
    watchdog: WatchdogView,
    event: WatchdogEventView,
) -> TurnView {
    match (watchdog, event) {
        (
            WatchdogView::Starting,
            WatchdogEventView::Started { pid: child, port, url: child_url },
        ) => TurnView {
            pid: Some(child),
            url,
            watchdog: WatchdogView::AwaitingReady { pid: child, port, url: child_url },
            announce: None,
        },
        (WatchdogView::Starting, WatchdogEventView::StartFailed(message)) => TurnView {
            pid,
            url,
            watchdog: WatchdogView::Settling { errored: true },
            announce: Some(crate::status::error_status(message)),
        },
        (
            WatchdogView::AwaitingReady { pid: child, url: child_url, .. },
            WatchdogEventView::Ready,
        ) => TurnView {
            pid,
            url: Some(child_url),
            watchdog: WatchdogView::Serving { pid: child, url: child_url },
            announce: Some(crate::status::ready_status(child_url)),
        },
        (
            WatchdogView::AwaitingReady { pid: child, .. },
            WatchdogEventView::ExitedEarly { status, tail },
        ) => TurnView {
            pid,
            url,
            watchdog: WatchdogView::Reaping {
                pid: child,
                message: exited_early_message(status, tail),
            },
            announce: None,
        },
        (
            WatchdogView::AwaitingReady { pid: child, .. },
            WatchdogEventView::TimedOut { tail },
        ) => TurnView {
            pid,
            url,
            watchdog: WatchdogView::Ending { pid: child, message: timed_out_message(tail) },
            announce: None,
        },
        (WatchdogView::Ending { pid: child, message }, WatchdogEventView::Ended) => TurnView {
            pid,
            url,
            watchdog: WatchdogView::Reaping { pid: child, message },
            announce: None,
        },
        (WatchdogView::Reaping { message, .. }, WatchdogEventView::Gone) => TurnView {
            pid: None,
            url: None,
            watchdog: WatchdogView::Settling { errored: true },
            announce: Some(crate::status::error_status(message)),
        },
        (WatchdogView::Serving { .. }, WatchdogEventView::Gone) => TurnView {
            pid: None,
            url: None,
            watchdog: WatchdogView::Settling { errored: false },
            announce: Some(crate::status::stopped_status()),
        },
        (WatchdogView::Settling { errored }, WatchdogEventView::Settled) => TurnView {
            pid,
            url,
            watchdog: if shutting_down {
                WatchdogView::Finished
            } else {
                WatchdogView::Pausing { errored }
            },
            announce: None,
        },
        (WatchdogView::Pausing { .. }, WatchdogEventView::Paused) => run_begins(
            pid,
            url,
            shutting_down,
        ),
        _ => TurnView { pid, url, watchdog, announce: None },
    }
}

/// The turn that a state and a `Turn` make up.
pub open spec fn turn_view<U>(state: AppState<U>, turn: Turn) -> TurnView {
    TurnView {
        pid: state@.pid,
        url: state@.url,
        watchdog: turn.watchdog@,
        announce: optional_status(turn.announce),
    }
}

/// Begins the watch.
pub fn start_watchdog<U>(state: &AppState<U>) -> (res: Turn)
    ensures
        turn_view(*state, res) == run_begins(state@.pid, state@.url, state@.shutting_down),
{
    if state.shutting_down {
        Turn { watchdog: Watchdog::Finished, announce: None }
    } else {
        Turn { watchdog: Watchdog::Starting, announce: Some(BackendStatus::starting()) }
    }
}

impl Watchdog {
    /// Takes what has happened. Only the process id and the URL of the shared
    /// state may change.
    pub fn next<U>(self, state: &mut AppState<U>, event: WatchdogEvent) -> (res: Turn)
        ensures
            turn_view(*final(state), res) == watchdog_next(
                old(state)@.pid,
                old(state)@.url,
                old(state)@.shutting_down,
                self@,
                event@,
            ),
            final(state)@ == (crate::state::AppStateView {
                pid: final(state)@.pid,
                url: final(state)@.url,
                ..old(state)@
            }),
    {
        match (self, event) {
            (Watchdog::Starting, WatchdogEvent::Started(backend)) => {
                state.pid = Some(backend.pid);
                Turn {
                    watchdog: Watchdog::AwaitingReady {
                        pid: backend.pid,
                        port: backend.port,
                        url: backend.url,
                    },
                    announce: None,
                }
            },
            (Watchdog::Starting, WatchdogEvent::StartFailed(message)) => Turn {
                watchdog: Watchdog::Settling { errored: true },
                announce: Some(BackendStatus::error(message)),
            },
            (Watchdog::AwaitingReady { pid, url, .. }, WatchdogEvent::Ready) => {
                state.url = Some(url.clone());
                Turn {
                    watchdog: Watchdog::Serving { pid, url: url.clone() },
                    announce: Some(BackendStatus::ready(url)),
                }
            },
            (
                Watchdog::AwaitingReady { pid, .. },
                WatchdogEvent::ExitedEarly { status, tail },
            ) => {
                let message = "backend exited before ready (".to_owned().concat(
                    status.as_str(),
                ).concat(").\n").concat(tail.as_str());
                Turn { watchdog: Watchdog::Reaping { pid, message }, announce: None }
            },
            (Watchdog::AwaitingReady { pid, .. }, WatchdogEvent::TimedOut { tail }) => {
                let seconds = crate::text::decimal_text(
                    crate::ready::STARTUP_TIMEOUT_SECS as u32,
                );
                let message = "backend did not become ready within ".to_owned().concat(
                    seconds.as_str(),
                ).concat("s.\n").concat(tail.as_str());
                Turn { watchdog: Watchdog::Ending { pid, message }, announce: None }
            },
            (Watchdog::Ending { pid, message }, WatchdogEvent::Ended) => Turn {
                watchdog: Watchdog::Reaping { pid, message },
                announce: None,
            },
            (Watchdog::Reaping { message, .. }, WatchdogEvent::Gone) => {
                state.pid = None;
                state.url = None;
                Turn {
                    watchdog: Watchdog::Settling { errored: true },
                    announce: Some(BackendStatus::error(message)),
                }
            },
            (Watchdog::Serving { .. }, WatchdogEvent::Gone) => {
                state.pid = None;
                state.url = None;
                Turn {
                    watchdog: Watchdog::Settling { errored: false },
                    announce: Some(BackendStatus::stopped()),
                }
            },
            (Watchdog::Settling { errored }, WatchdogEvent::Settled) => Turn {
                watchdog: if state.shutting_down {
                    Watchdog::Finished
                } else {
                    Watchdog::Pausing { errored }
                },
                announce: None,
            },
            (Watchdog::Pausing { .. }, WatchdogEvent::Paused) => start_watchdog(state),
            (watchdog, _) => Turn { watchdog, announce: None },
        }
    }
}

/// The pause before the next start, in seconds.
pub fn restart_delay(errored: bool) -> (res: u64)
    ensures
        res == if errored {
            ERROR_RESTART_DELAY_SECS
        } else {
            RESTART_DELAY_SECS
        },
{
    if errored {
        ERROR_RESTART_DELAY_SECS
    } else {
        RESTART_DELAY_SECS
    }
}

/// What holds throughout the watch: the published process id is the one of the
/// backend that runs, if one does, and the published URL is the one of the
/// backend that listens, if one does.
pub open spec fn watch_wf(
    pid: Option<u32>,
    url: Option<Seq<char>>,
    watchdog: WatchdogView,
) -> bool {
    &&& pid == match watchdog {
        WatchdogView::AwaitingReady { pid, .. } => Some(pid),
        WatchdogView::Serving { pid, .. } => Some(pid),
        WatchdogView::Ending { pid, .. } => Some(pid),
        WatchdogView::Reaping { pid, .. } => Some(pid),
        _ => None,
    }
    &&& url == match watchdog {
        WatchdogView::Serving { url, .. } => Some(url),
        _ => None,
    }
}

/// The watch begins well-formed: at the start there is no backend.
pub proof fn lemma_watch_begins(shutting_down: bool)
    ensures
        ({
            let turn = run_begins(None, None, shutting_down);
            watch_wf(turn.pid, turn.url, turn.watchdog)
        }),
{
}

/// Every event keeps the watch well-formed. In particular the URL is published
/// exactly while a backend is known to listen, and the process id exactly while
/// a backend runs.
pub proof fn lemma_watch_stays(
    pid: Option<u32>,
    url: Option<Seq<char>>,
    shutting_down: bool,
    watchdog: WatchdogView,
    event: WatchdogEventView,
)
    requires
        watch_wf(pid, url, watchdog),
    ensures
        ({
            let turn = watchdog_next(pid, url, shutting_down, watchdog, event);
            watch_wf(turn.pid, turn.url, turn.watchdog)
        }),
{
}

/// A URL is published only when the backend was found to listen, and the splash
/// page is told of that same URL.
pub proof fn lemma_published_when_ready(
    pid: Option<u32>,
    url: Option<Seq<char>>,
    shutting_down: bool,
    watchdog: WatchdogView,
    event: WatchdogEventView,
)
    requires
        url is None,
        watchdog_next(pid, url, shutting_down, watchdog, event).url is Some,
    ensures
        event is Ready,
        ({
            let turn = watchdog_next(pid, url, shutting_down, watchdog, event);
            turn.announce == Some(crate::status::ready_status(turn.url->0))
        }),
{
}

/// The URL that is published is the one of the backend that was started.
pub proof fn lemma_published_url_is_the_started_one(
    pid: Option<u32>,
    url: Option<Seq<char>>,
    shutting_down: bool,
    child: u32,
    port: u16,
    child_url: Seq<char>,
)
    ensures
        ({
            let started = watchdog_next(
                pid,
                url,
                shutting_down,
                WatchdogView::Starting,
                WatchdogEventView::Started { pid: child, port, url: child_url },
            );
            let ready = watchdog_next(
                started.pid,
                started.url,
                shutting_down,
                started.watchdog,
                WatchdogEventView::Ready,
            );
            &&& started.url == url
            &&& ready.pid == Some(child)
            &&& ready.url == Some(child_url)
        }),
{
}

/// No backend is started once the application exits.
pub proof fn lemma_no_start_while_shutting_down(
    pid: Option<u32>,
    url: Option<Seq<char>>,
    watchdog: WatchdogView,
    event: WatchdogEventView,
)
    requires
        !(watchdog is Starting),
    ensures
        !(watchdog_next(pid, url, true, watchdog, event).watchdog is Starting),
        !(run_begins(pid, url, true).watchdog is Starting),
{
}

/// Once it has finished, the watchdog does nothing any more.
pub proof fn lemma_finished_is_final(
    pid: Option<u32>,
    url: Option<Seq<char>>,
    shutting_down: bool,
    event: WatchdogEventView,
)
    ensures
        watchdog_next(pid, url, shutting_down, WatchdogView::Finished, event) == (TurnView {
            pid,
            url,
            watchdog: WatchdogView::Finished,
            announce: None,
        }),
{
}

/// Two events later: the end of a run is announced, the pause is made, and
/// the next run begins.
pub open spec fn after_the_end(ended: TurnView, shutting_down: bool) -> TurnView {
    let settled = watchdog_next(
        ended.pid,
        ended.url,
        shutting_down,
        ended.watchdog,
        WatchdogEventView::Settled,
    );
    watchdog_next(
        settled.pid,
        settled.url,
        shutting_down,
        settled.watchdog,
        WatchdogEventView::Paused,
    )
}

/// However a run ends, the backend is started again, unless the application
/// exits: after a backend that served is gone, after one that did not come up
/// is gone, and after a start that failed.
pub proof fn lemma_always_restarts(
    pid: Option<u32>,
    url: Option<Seq<char>>,
    watchdog: WatchdogView,
    event: WatchdogEventView,
    shutting_down: bool,
)
    requires
        ({
            ||| watchdog is Serving && event is Gone
            ||| watchdog is Reaping && event is Gone
            ||| watchdog is Starting && event is StartFailed
        }),
    ensures
        ({
            let ended = watchdog_next(pid, url, shutting_down, watchdog, event);
            let next = after_the_end(ended, shutting_down);
            &&& !shutting_down ==> next.watchdog is Starting
            &&& shutting_down ==> next.watchdog is Finished
        }),
{
}

/// The pause is longer after an error: a run counts as one that erred exactly
/// when the backend never became ready.
pub proof fn lemma_errors_pause_longer(
    pid: Option<u32>,
    url: Option<Seq<char>>,
    shutting_down: bool,
    watchdog: WatchdogView,
    event: WatchdogEventView,
)
    requires
        !(watchdog is Settling),
    ensures
        ERROR_RESTART_DELAY_SECS > RESTART_DELAY_SECS,
        watchdog_next(pid, url, shutting_down, watchdog, event).watchdog matches
            WatchdogView::Settling { errored } ==> errored == !(watchdog is Serving),
{
}

} // verus!
