//! The state that the watchdog, the updater and the commands of the user
//! interface share.

use vstd::prelude::*;

verus! {

/// A downloaded update that is not installed yet. `update` is the handle of
/// the updater that the bytes belong to.
#[derive(Debug, PartialEq, Eq)]
pub struct PendingUpdate<U> {
    pub version: String,
    pub update: U,
    pub bytes: Vec<u8>,
}

/// What a `PendingUpdate` says.
#[verifier::reject_recursive_types(U)]
pub struct PendingUpdateView<U> {
    pub version: Seq<char>,
    pub update: U,
    pub bytes: Seq<u8>,
}

impl<U> View for PendingUpdate<U> {
    type V = PendingUpdateView<U>;

    open spec fn view(&self) -> PendingUpdateView<U> {
        PendingUpdateView { version: self.version@, update: self.update, bytes: self.bytes@ }
    }
}

/// The shared state.
#[derive(Debug, PartialEq, Eq)]
pub struct AppState<U> {
    /// The id of the running backend, if any.
    pub pid: Option<u32>,
    /// The URL of the running backend, if it is ready.
    pub url: Option<String>,
    /// Set once the application exits; stops the watchdog.
    pub shutting_down: bool,
    /// A downloaded update that is not installed yet, if any.
    pub pending: Option<PendingUpdate<U>>,
    /// Set while an update operation is in progress.
    pub downloading: bool,
}

/// What an `AppState` says.
#[verifier::reject_recursive_types(U)]
pub struct AppStateView<U> {
    pub pid: Option<u32>,
    pub url: Option<Seq<char>>,
    pub shutting_down: bool,
    pub pending: Option<PendingUpdateView<U>>,
    pub downloading: bool,
}

/// What an optional `PendingUpdate` says.
pub open spec fn optional_pending<U>(pending: Option<PendingUpdate<U>>) -> Option<
    PendingUpdateView<U>,
> {
    match pending {
        Some(p) => Some(p@),
        None => None,
    }
}

impl<U> View for AppState<U> {
    type V = AppStateView<U>;

    open spec fn view(&self) -> AppStateView<U> {
        AppStateView {
            pid: self.pid,
            url: crate::text::optional_text(self.url),
            shutting_down: self.shutting_down,
            pending: optional_pending(self.pending),
            downloading: self.downloading,
        }
    }
}

/// The state at the start: no backend, no update and nothing in progress.
pub open spec fn initial_state<U>() -> AppStateView<U> {
    AppStateView {
        pid: None,
        url: None,
        shutting_down: false,
        pending: None,
        downloading: false,
    }
}

impl<U> Default for AppState<U> {
    fn default() -> (res: AppState<U>)
        ensures
            res@ == initial_state::<U>(),
    {
        AppState { pid: None, url: None, shutting_down: false, pending: None, downloading: false }
    }
}

/// The URL of the backend, if it is ready.
pub fn get_backend_url<U>(state: &AppState<U>) -> (res: Option<String>)
    ensures
        crate::text::optional_text(res) == state@.url,
{
    state.url.clone()
}

/// The process to end so that the watchdog starts a new one at once.
pub fn restart_backend<U>(state: &AppState<U>) -> (res: Option<u32>)
    ensures
        res == state@.pid,
{
    state.pid
}

/// The version of the downloaded update, if there is one.
pub fn get_update_version<U>(state: &AppState<U>) -> (res: Option<String>)
    ensures
        crate::text::optional_text(res) == match state@.pending {
            Some(pending) => Some(pending.version),
            None => None,
        },
{
    match &state.pending {
        Some(pending) => Some(pending.version.clone()),
        None => None,
    }
}

/// Notes that the application exits. The backend that still runs, if any, is
/// the one to end.
pub fn begin_shutdown<U>(state: &mut AppState<U>) -> (res: Option<u32>)
    ensures
        final(state)@ == (AppStateView { shutting_down: true, ..old(state)@ }),
        res == old(state)@.pid,
{
    state.shutting_down = true;
    state.pid
}

/// The page to load while no backend is ready.
pub const SPLASH_PAGE: &'static str = "index.html";

/// The page that a reload goes to: the backend's, else the splash page.
pub open spec fn reload_text(url: Option<Seq<char>>) -> Seq<char> {
    match url {
        Some(u) => u,
        None => SPLASH_PAGE@,
    }
}

/// The page that a reload goes to.
pub fn reload_target<U>(state: &AppState<U>) -> (res: String)
    ensures
        res@ == reload_text(state@.url),
{
    match &state.url {
        Some(url) => url.clone(),
        None => SPLASH_PAGE.to_owned(),
    }
}

/// The serialization of the absolute URL that a text denotes, if it denotes
/// one.
pub uninterp spec fn parsed_url(text: Seq<char>) -> Option<Seq<char>>;

/// The serialized URL of a backend: the root path is written out, and the port
/// is left out where it is the one that the scheme implies.
pub open spec fn backend_page(port: u16) -> Seq<char> {
    if port == 80 {
        "http://127.0.0.1/"@
    } else {
        crate::launch::loopback_url(port) + "/"@
    }
}

/// Calls `url::Url::parse` and takes the serialization of the URL; the result
/// is named `parsed_url`. A text without a colon has no scheme and is no
/// absolute URL. The URL of a backend on a loopback port is one, and it is
/// serialized with the root path and without the port that `http` implies.
#[verifier::external_body]
fn parse_url(text: &str) -> (res: Option<String>)
    ensures
        crate::text::optional_text(res) == parsed_url(text@),
        !text@.contains(':') ==> res is None,
        forall|port: u16|
            text@ == #[trigger] crate::launch::loopback_url(port) ==> crate::text::optional_text(
                res,
            ) == Some(backend_page(port)),
{
    url::Url::parse(text).ok().map(|url| url.to_string())
}

/// The URL that a reload navigates to, if its target is an absolute URL: the
/// page of the backend while one is published, and none while there is none.
pub fn reload<U>(state: &AppState<U>) -> (res: Option<String>)
    ensures
        crate::text::optional_text(res) == parsed_url(reload_text(state@.url)),
        state@.url is None ==> res is None,
        forall|port: u16|
            state@.url == Some(#[trigger] crate::launch::loopback_url(port))
                ==> crate::text::optional_text(res) == Some(backend_page(port)),
{
    let target = reload_target(state);
    proof {
        reveal_strlit("index.html");
        assert(!"index.html"@.contains(':'));
    }
    parse_url(target.as_str())
}

} // verus!
