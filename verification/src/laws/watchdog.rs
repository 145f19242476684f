//! Laws of the watchdog.

use vstd::prelude::*;

#[allow(unused_imports)]
use crate::watchdog::{
    self, ERROR_RESTART_DELAY_SECS, RESTART_DELAY_SECS, Turn, TurnView, Watchdog, WatchdogEvent,
    WatchdogEventView, WatchdogView,
};
#[allow(unused_imports)]
use crate::launch::Backend;
#[allow(unused_imports)]
use crate::state::AppState;
#[allow(unused_imports)]
use crate::status::BackendStatus;

verus! {

/// Every run begins with the start of a backend, which is announced, unless the
/// application exits. Nothing is published by that.
pub proof fn lemma_every_run_begins_with_a_start(pid: Option<u32>, url: Option<Seq<char>>)
    ensures
        watchdog::run_begins(pid, url, false) == (TurnView {
            pid,
            url,
            watchdog: WatchdogView::Starting,
            announce: Some(
                crate::status::BackendStatusView { state: "starting"@, url: None, message: None },
            ),
        }),
        watchdog::run_begins(pid, url, true) == (TurnView {
            pid,
            url,
            watchdog: WatchdogView::Finished,
            announce: None,
        }),
{
}

/// A backend that was started is waited for under its own id, on its own port
/// and with its own URL; its id is published and nothing else. A start that
/// failed is announced with its reason.
pub proof fn lemma_started_backend_is_awaited(
    pid: Option<u32>,
    url: Option<Seq<char>>,
    shutting_down: bool,
    child: u32,
    port: u16,
    child_url: Seq<char>,
    message: Seq<char>,
)
    ensures
        watchdog::watchdog_next(
            pid,
            url,
            shutting_down,
            WatchdogView::Starting,
            WatchdogEventView::Started { pid: child, port, url: child_url },
        ) == (TurnView {
            pid: Some(child),
            url,
            watchdog: WatchdogView::AwaitingReady { pid: child, port, url: child_url },
            announce: None,
        }),
        watchdog::watchdog_next(
            pid,
            url,
            shutting_down,
            WatchdogView::Starting,
            WatchdogEventView::StartFailed(message),
        ) == (TurnView {
            pid,
            url,
            watchdog: WatchdogView::Settling { errored: true },
            announce: Some(
                crate::status::BackendStatusView {
                    state: "error"@,
                    url: None,
                    message: Some(message),
                },
            ),
        }),
{
}

/// The URL that is waited for is the one of the port that is waited for, as long
/// as the URL of every backend that is started is the one of its port.
pub proof fn lemma_awaited_url_is_of_the_awaited_port(
    pid: Option<u32>,
    url: Option<Seq<char>>,
    shutting_down: bool,
    watchdog: WatchdogView,
    event: WatchdogEventView,
)
    requires
        watchdog matches WatchdogView::AwaitingReady { port, url, .. } ==> url
            == crate::launch::loopback_url(port),
        event matches WatchdogEventView::Started { port, url, .. } ==> url
            == crate::launch::loopback_url(port),
    ensures
        watchdog::watchdog_next(pid, url, shutting_down, watchdog, event).watchdog matches
            WatchdogView::AwaitingReady { port, url, .. } ==> url == crate::launch::loopback_url(
            port,
        ),
{
}

/// How the wait for a backend ends: one that listens is published and announced
/// with its URL, and then served; one that exited is reaped; one that was not
/// ready in time is ended and then reaped. The message of either failure says
/// what happened and ends in what the backend printed.
pub proof fn lemma_how_the_wait_ends(
    pid: Option<u32>,
    url: Option<Seq<char>>,
    shutting_down: bool,
    child: u32,
    port: u16,
    child_url: Seq<char>,
    status: Seq<char>,
    tail: Seq<char>,
)
    ensures
        ({
            let awaiting = WatchdogView::AwaitingReady { pid: child, port, url: child_url };
            let early = "backend exited before ready ("@ + status + ").\n"@ + tail;
            let late = "backend did not become ready within 60s.\n"@ + tail;
            &&& watchdog::watchdog_next(pid, url, shutting_down, awaiting, WatchdogEventView::Ready) == (
            TurnView {
                pid,
                url: Some(child_url),
                watchdog: WatchdogView::Serving { pid: child, url: child_url },
                announce: Some(
                    crate::status::BackendStatusView {
                        state: "ready"@,
                        url: Some(child_url),
                        message: None,
                    },
                ),
            })
            &&& watchdog::watchdog_next(
                pid,
                url,
                shutting_down,
                awaiting,
                WatchdogEventView::ExitedEarly { status, tail },
            ) == (TurnView {
                pid,
                url,
                watchdog: WatchdogView::Reaping { pid: child, message: early },
                announce: None,
            })
            &&& watchdog::watchdog_next(
                pid,
                url,
                shutting_down,
                awaiting,
                WatchdogEventView::TimedOut { tail },
            ) == (TurnView {
                pid,
                url,
                watchdog: WatchdogView::Ending { pid: child, message: late },
                announce: None,
            })
        }),
{
    reveal_strlit("backend did not become ready within ");
    reveal_strlit("s.\n");
    reveal_strlit("backend did not become ready within 60s.\n");
    reveal_with_fuel(crate::text::decimal, 2);
    assert(crate::text::decimal(60) =~= seq!['6', '0']);
    assert(watchdog::timed_out_message(tail) =~= "backend did not become ready within 60s.\n"@ + tail);
}

/// How a run ends: a backend that was ended is reaped under its own id with the
/// same message; once it is gone, nothing is published any more and the message
/// is announced; one that served is announced as stopped. Then the pause is made
/// that the run calls for, unless the application exits, and the next run begins.
pub proof fn lemma_how_a_run_ends(
    pid: Option<u32>,
    url: Option<Seq<char>>,
    shutting_down: bool,
    child: u32,
    child_url: Seq<char>,
    message: Seq<char>,
    errored: bool,
)
    ensures
        watchdog::watchdog_next(
            pid,
            url,
            shutting_down,
            WatchdogView::Ending { pid: child, message },
            WatchdogEventView::Ended,
        ) == (TurnView {
            pid,
            url,
            watchdog: WatchdogView::Reaping { pid: child, message },
            announce: None,
        }),
        watchdog::watchdog_next(
            pid,
            url,
            shutting_down,
            WatchdogView::Reaping { pid: child, message },
            WatchdogEventView::Gone,
        ) == (TurnView {
            pid: None,
            url: None,
            watchdog: WatchdogView::Settling { errored: true },
            announce: Some(
                crate::status::BackendStatusView {
                    state: "error"@,
                    url: None,
                    message: Some(message),
                },
            ),
        }),
        watchdog::watchdog_next(
            pid,
            url,
            shutting_down,
            WatchdogView::Serving { pid: child, url: child_url },
            WatchdogEventView::Gone,
        ) == (TurnView {
            pid: None,
            url: None,
            watchdog: WatchdogView::Settling { errored: false },
            announce: Some(
                crate::status::BackendStatusView {
                    state: "stopped"@,
                    url: None,
                    message: Some("backend process exited; restarting…"@),
                },
            ),
        }),
        watchdog::watchdog_next(
            pid,
            url,
            false,
            WatchdogView::Settling { errored },
            WatchdogEventView::Settled,
        ) == (TurnView { pid, url, watchdog: WatchdogView::Pausing { errored }, announce: None }),
        watchdog::watchdog_next(
            pid,
            url,
            true,
            WatchdogView::Settling { errored },
            WatchdogEventView::Settled,
        ) == (TurnView { pid, url, watchdog: WatchdogView::Finished, announce: None }),
        watchdog::watchdog_next(
            pid,
            url,
            false,
            WatchdogView::Pausing { errored },
            WatchdogEventView::Paused,
        ) == (TurnView {
            pid,
            url,
            watchdog: WatchdogView::Starting,
            announce: Some(
                crate::status::BackendStatusView { state: "starting"@, url: None, message: None },
            ),
        }),
        watchdog::watchdog_next(
            pid,
            url,
            true,
            WatchdogView::Pausing { errored },
            WatchdogEventView::Paused,
        ) == (TurnView { pid, url, watchdog: WatchdogView::Finished, announce: None }),
{
}

/// An event that is not awaited changes nothing and announces nothing.
pub proof fn lemma_watch_ignores_other_events(
    pid: Option<u32>,
    url: Option<Seq<char>>,
    shutting_down: bool,
    watchdog: WatchdogView,
    event: WatchdogEventView,
)
    requires
        watchdog is Starting ==> !(event is Started || event is StartFailed),
        watchdog is AwaitingReady ==> !(event is Ready || event is ExitedEarly
            || event is TimedOut),
        (watchdog is Serving || watchdog is Reaping) ==> !(event is Gone),
        watchdog is Ending ==> !(event is Ended),
        watchdog is Settling ==> !(event is Settled),
        watchdog is Pausing ==> !(event is Paused),
    ensures
        watchdog::watchdog_next(pid, url, shutting_down, watchdog, event) == (TurnView {
            pid,
            url,
            watchdog,
            announce: None,
        }),
{
}

/// The pauses are one second, and three after an error.
pub proof fn lemma_pauses()
    ensures
        RESTART_DELAY_SECS == 1,
        ERROR_RESTART_DELAY_SECS == 3,
{
}

/// A turn says what is published, what is awaited and what is announced.
pub proof fn lemma_turn_says<U>(state: AppState<U>, turn: Turn, status: BackendStatus)
    ensures
        watchdog::turn_view(state, turn).pid == state.pid,
        state.url matches Some(url) ==> watchdog::turn_view(state, turn).url == Some(url@),
        state.url is None ==> watchdog::turn_view(state, turn).url is None,
        watchdog::turn_view(state, turn).watchdog == turn.watchdog@,
        turn.announce matches Some(said) ==> watchdog::turn_view(state, turn).announce == Some(said@),
        turn.announce is None ==> watchdog::turn_view(state, turn).announce is None,
        watchdog::optional_status(Some(status)) == Some(status@),
        watchdog::optional_status(None) is None,
{
}

/// A watchdog and an event say what they hold.
pub proof fn lemma_watch_says(
    pid: u32,
    port: u16,
    url: String,
    message: String,
    errored: bool,
    backend: Backend,
)
    ensures
        Watchdog::Starting@ == WatchdogView::Starting,
        (Watchdog::AwaitingReady { pid, port, url })@ == (WatchdogView::AwaitingReady {
            pid,
            port,
            url: url@,
        }),
        (Watchdog::Serving { pid, url })@ == (WatchdogView::Serving { pid, url: url@ }),
        (Watchdog::Ending { pid, message })@ == (WatchdogView::Ending { pid, message: message@ }),
        (Watchdog::Reaping { pid, message })@ == (WatchdogView::Reaping { pid, message: message@ }),
        (Watchdog::Settling { errored })@ == (WatchdogView::Settling { errored }),
        (Watchdog::Pausing { errored })@ == (WatchdogView::Pausing { errored }),
        Watchdog::Finished@ == WatchdogView::Finished,
        WatchdogEvent::Started(backend)@ == (WatchdogEventView::Started {
            pid: backend.pid,
            port: backend.port,
            url: backend.url@,
        }),
        WatchdogEvent::StartFailed(message)@ == WatchdogEventView::StartFailed(message@),
        WatchdogEvent::Ready@ == WatchdogEventView::Ready,
        (WatchdogEvent::ExitedEarly { status: url, tail: message })@ == (
        WatchdogEventView::ExitedEarly { status: url@, tail: message@ }),
        (WatchdogEvent::TimedOut { tail: message })@ == (WatchdogEventView::TimedOut {
            tail: message@,
        }),
        WatchdogEvent::Ended@ == WatchdogEventView::Ended,
        WatchdogEvent::Gone@ == WatchdogEventView::Gone,
        WatchdogEvent::Settled@ == WatchdogEventView::Settled,
        WatchdogEvent::Paused@ == WatchdogEventView::Paused,
{
}

} // verus!
