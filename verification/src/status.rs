//! The status that the splash page listens to.

use vstd::prelude::*;

verus! {

/// The event that carries a `BackendStatus`.
pub const BACKEND_STATUS_EVENT: &'static str = "backend-status";

/// What the splash page is told of the backend.
#[derive(Clone, Debug, PartialEq, Eq)]
pub struct BackendStatus {
    pub state: String,
    pub url: Option<String>,
    pub message: Option<String>,
}

/// The texts of a `BackendStatus`.
pub struct BackendStatusView {
    pub state: Seq<char>,
    pub url: Option<Seq<char>>,
    pub message: Option<Seq<char>>,
}

impl View for BackendStatus {
    type V = BackendStatusView;

    open spec fn view(&self) -> BackendStatusView {
        BackendStatusView {
            state: self.state@,
            url: crate::text::optional_text(self.url),
            message: crate::text::optional_text(self.message),
        }
    }
}

/// The backend is being started.
pub open spec fn starting_status() -> BackendStatusView {
    BackendStatusView { state: "starting"@, url: None, message: None }
}

/// The backend listens at `url`.
pub open spec fn ready_status(url: Seq<char>) -> BackendStatusView {
    BackendStatusView { state: "ready"@, url: Some(url), message: None }
}

/// The backend ran and has exited.
pub open spec fn stopped_status() -> BackendStatusView {
    BackendStatusView {
        state: "stopped"@,
        url: None,
        message: Some("backend process exited; restarting…"@),
    }
}

/// The backend did not come up, for the reason given.
pub open spec fn error_status(message: Seq<char>) -> BackendStatusView {
    BackendStatusView { state: "error"@, url: None, message: Some(message) }
}

impl BackendStatus {
    /// The status while the backend is being started.
    pub fn starting() -> (res: BackendStatus)
        ensures
            res@ == starting_status(),
    {
        BackendStatus { state: "starting".to_owned(), url: None, message: None }
    }

    /// The status once the backend listens at `url`.
    pub fn ready(url: String) -> (res: BackendStatus)
        ensures
            res@ == ready_status(url@),
    {
        BackendStatus { state: "ready".to_owned(), url: Some(url), message: None }
    }

    /// The status after a backend that had been ready has exited.
    pub fn stopped() -> (res: BackendStatus)
        ensures
            res@ == stopped_status(),
    {
        BackendStatus {
            state: "stopped".to_owned(),
            url: None,
            message: Some("backend process exited; restarting…".to_owned()),
        }
    }

    /// The status after the backend did not come up.
    pub fn error(message: String) -> (res: BackendStatus)
        ensures
            res@ == error_status(message@),
    {
        BackendStatus { state: "error".to_owned(), url: None, message: Some(message) }
    }
}

} // verus!
