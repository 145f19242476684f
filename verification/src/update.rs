//! Updates: looked for, downloaded, announced and installed.
//!
//! An update is downloaded first and announced only then, so that installing
//! it takes no waiting. At most one downloaded version is held: while one is
//! pending, no new download starts. Only one update operation runs at a time.

use vstd::prelude::*;

use crate::state::{AppState, PendingUpdate};

verus! {

/// The event that carries an `UpdatePayload`.
pub const UPDATE_AVAILABLE_EVENT: &'static str = "update-available";

/// How long to wait after the launch before the first check, in seconds.
pub const FIRST_CHECK_DELAY_SECS: u64 = 20;

/// How long to wait between two checks, in seconds.
pub const CHECK_INTERVAL_SECS: u64 = 1800;

/// What the page is told of a downloaded update.
#[derive(Clone, Debug, PartialEq, Eq)]
pub struct UpdatePayload {
    pub version: String,
}

/// A message for the user.
#[derive(Debug, PartialEq, Eq)]
pub struct Dialog {
    pub title: String,
    pub message: String,
}

/// What a `Dialog` says.
pub struct DialogView {
    pub title: Seq<char>,
    pub message: Seq<char>,
}

impl View for Dialog {
    type V = DialogView;

    open spec fn view(&self) -> DialogView {
        DialogView { title: self.title@, message: self.message@ }
    }
}

/// What an update operation waits for, or its end.
#[derive(Debug, PartialEq, Eq)]
pub enum UpdateFlow<U> {
    /// The latest version to be looked up. A check that the user asked for is
    /// `manual`.
    Checking { manual: bool },
    /// The version that was found to be downloaded.
    Downloading { manual: bool, version: String, update: U },
    /// The page to be told of the downloaded version.
    Announcing { manual: bool, payload: UpdatePayload },
    /// The user to choose between installing now and later.
    Asking { prompt: Dialog, pending: PendingUpdate<U> },
    /// The update to be installed. `asked` tells whether the user was asked.
    Installing { asked: bool, pending: PendingUpdate<U> },
    /// The user to dismiss a message.
    Reporting { dialog: Dialog, result: Result<(), String> },
    /// The application to restart on the new version.
    Restarting,
    /// Nothing: the operation is over.
    Over(Result<(), String>),
}

/// What has happened.
#[derive(Debug, PartialEq, Eq)]
pub enum UpdateEvent<U> {
    /// There is no newer version.
    UpToDate,
    /// There is a newer version.
    Found { version: String, update: U },
    /// The download is complete.
    Downloaded(Vec<u8>),
    /// The page was told.
    Announced,
    /// The user chose: to install now, or later.
    Chosen(bool),
    /// The update is installed.
    Installed,
    /// The message was dismissed.
    Dismissed,
    /// The check, the download or the installation failed.
    Failed(String),
}

/// What an `UpdateFlow` says.
#[verifier::reject_recursive_types(U)]
pub enum UpdateFlowView<U> {
    Checking { manual: bool },
    Downloading { manual: bool, version: Seq<char>, update: U },
    Announcing { manual: bool, version: Seq<char> },
    Asking { prompt: DialogView, pending: crate::state::PendingUpdateView<U> },
    Installing { asked: bool, pending: crate::state::PendingUpdateView<U> },
    Reporting { dialog: DialogView, result: Result<(), Seq<char>> },
    Restarting,
    Over(Result<(), Seq<char>>),
}

/// What an `UpdateEvent` says.
#[verifier::reject_recursive_types(U)]
pub enum UpdateEventView<U> {
    UpToDate,
    Found { version: Seq<char>, update: U },
    Downloaded(Seq<u8>),
    Announced,
    Chosen(bool),
    Installed,
    Dismissed,
    Failed(Seq<char>),
}

/// What the result of an operation says.
pub open spec fn result_view(result: Result<(), String>) -> Result<(), Seq<char>> {
    match result {
        Ok(_) => Ok(()),
        Err(message) => Err(message@),
    }
}

impl<U> View for UpdateFlow<U> {
    type V = UpdateFlowView<U>;

    open spec fn view(&self) -> UpdateFlowView<U> {
        match self {
            UpdateFlow::Checking { manual } => UpdateFlowView::Checking { manual: *manual },
            UpdateFlow::Downloading { manual, version, update } => UpdateFlowView::Downloading {
                manual: *manual,
                version: version@,
                update: *update,
            },
            UpdateFlow::Announcing { manual, payload } => UpdateFlowView::Announcing {
                manual: *manual,
                version: payload.version@,
            },
            UpdateFlow::Asking { prompt, pending } => UpdateFlowView::Asking {
                prompt: prompt@,
                pending: pending@,
            },
            UpdateFlow::Installing { asked, pending } => UpdateFlowView::Installing {
                asked: *asked,
                pending: pending@,
            },
            UpdateFlow::Reporting { dialog, result } => UpdateFlowView::Reporting {
                dialog: dialog@,
                result: result_view(*result),
            },
            UpdateFlow::Restarting => UpdateFlowView::Restarting,
            UpdateFlow::Over(result) => UpdateFlowView::Over(result_view(*result)),
        }
    }
}

impl<U> View for UpdateEvent<U> {
    type V = UpdateEventView<U>;

    open spec fn view(&self) -> UpdateEventView<U> {
        match self {
            UpdateEvent::UpToDate => UpdateEventView::UpToDate,
            UpdateEvent::Found { version, update } => UpdateEventView::Found {
                version: version@,
                update: *update,
            },
            UpdateEvent::Downloaded(bytes) => UpdateEventView::Downloaded(bytes@),
            UpdateEvent::Announced => UpdateEventView::Announced,
            UpdateEvent::Chosen(now) => UpdateEventView::Chosen(*now),
            UpdateEvent::Installed => UpdateEventView::Installed,
            UpdateEvent::Dismissed => UpdateEventView::Dismissed,
            UpdateEvent::Failed(cause) => UpdateEventView::Failed(cause@),
        }
    }
}

/// The part of the shared state that is the updater's, and what the operation
/// waits for.
#[verifier::reject_recursive_types(U)]
pub struct UpdateTurn<U> {
    pub pending: Option<crate::state::PendingUpdateView<U>>,
    pub downloading: bool,
    pub flow: UpdateFlowView<U>,
}

/// The turn that a state and a flow make up.
pub open spec fn update_turn<U>(state: AppState<U>, flow: UpdateFlow<U>) -> UpdateTurn<U> {
    UpdateTurn { pending: state@.pending, downloading: state@.downloading, flow: flow@ }
}

/// The dialog that asks whether to install a version now.
pub open spec fn restart_prompt(version: Seq<char>) -> DialogView {
    DialogView {
        title: "Update Ready"@,
        message: "DeepSeek Harness "@ + version
            + " has been downloaded.\n\nRestart now to install the update?"@,
    }
}

/// A dialog that only tells something.
pub open spec fn notice(message: Seq<char>) -> DialogView {
    DialogView { title: "DeepSeek Harness"@, message }
}

/// The button that installs now.
pub const RESTART_BUTTON: &'static str = "Restart & Update";

/// The button that puts it off.
pub const LATER_BUTTON: &'static str = "Later";

/// The operation is over: the next one may begin.
pub open spec fn over<U>(
    pending: Option<crate::state::PendingUpdateView<U>>,
    result: Result<(), Seq<char>>,
) -> UpdateTurn<U> {
    UpdateTurn { pending, downloading: false, flow: UpdateFlowView::Over(result) }
}

/// The user is asked about the pending update, which leaves the shared state
/// meanwhile. Without one the operation is over.
pub open spec fn prompted<U>(
    pending: Option<crate::state::PendingUpdateView<U>>,
    downloading: bool,
) -> UpdateTurn<U> {
    match pending {
        Some(p) => UpdateTurn {
            pending: None,
            downloading,
            flow: UpdateFlowView::Asking { prompt: restart_prompt(p.version), pending: p },
        },
        None => over(None, Ok(())),
    }
}

/// The user asks to install the downloaded update.
pub open spec fn install_begins<U>(
    pending: Option<crate::state::PendingUpdateView<U>>,
    downloading: bool,
) -> UpdateTurn<U> {
    if downloading {
        UpdateTurn {
            pending,
            downloading,
            flow: UpdateFlowView::Over(Err("Another update operation is already running."@)),
        }
    } else {
        match pending {
            Some(p) => UpdateTurn {
                pending: None,
                downloading: true,
                flow: UpdateFlowView::Installing { asked: false, pending: p },
            },
            None => over(None, Err("No downloaded update is available."@)),
        }
    }
}

/// The user asks for a check.
pub open spec fn check_begins<U>(
    pending: Option<crate::state::PendingUpdateView<U>>,
    downloading: bool,
) -> UpdateTurn<U> {
    if downloading {
        UpdateTurn { pending, downloading, flow: UpdateFlowView::Over(Ok(())) }
    } else if pending is Some {
        prompted(pending, true)
    } else {
        UpdateTurn {
            pending,
            downloading: true,
            flow: UpdateFlowView::Checking { manual: true },
        }
    }
}

/// It is time for a check in the background.
pub open spec fn auto_check_begins<U>(
    pending: Option<crate::state::PendingUpdateView<U>>,
    downloading: bool,
) -> UpdateTurn<U> {
    if pending is Some || downloading {
        UpdateTurn { pending, downloading, flow: UpdateFlowView::Over(Ok(())) }
    } else {
        UpdateTurn {
            pending,
            downloading: true,
            flow: UpdateFlowView::Checking { manual: false },
        }
    }
}

/// The user is told of the end of an operation that they asked for; one in the
/// background ends silently.
pub open spec fn told<U>(
    pending: Option<crate::state::PendingUpdateView<U>>,
    downloading: bool,
    manual: bool,
    message: Seq<char>,
) -> UpdateTurn<U> {
    if manual {
        UpdateTurn {
            pending,
            downloading,
            flow: UpdateFlowView::Reporting { dialog: notice(message), result: Ok(()) },
        }
    } else {
        over(pending, Ok(()))
    }
}

/// What follows an event. An event that is not awaited changes nothing.
pub open spec fn update_next<U>(
    pending: Option<crate::state::PendingUpdateView<U>>,
    downloading: bool,
    flow: UpdateFlowView<U>,
    event: UpdateEventView<U>,
) -> UpdateTurn<U> {
    match (flow, event) {
        (UpdateFlowView::Checking { manual }, UpdateEventView::UpToDate) => told(
            pending,
            downloading,
            manual,
            "You are running the latest version."@,
        ),
        (UpdateFlowView::Checking { manual }, UpdateEventView::Failed(cause)) => told(
            pending,
            downloading,
            manual,
            "Update check failed: "@ + cause,
        ),
        (
            UpdateFlowView::Checking { manual },
            UpdateEventView::Found { version, update },
        ) => UpdateTurn {
            pending,
            downloading,
            flow: UpdateFlowView::Downloading { manual, version, update },
        },
        (UpdateFlowView::Downloading { manual, .. }, UpdateEventView::Failed(cause)) => told(
            pending,
            downloading,
            manual,
            "Update check failed: "@ + cause,
        ),
        (
            UpdateFlowView::Downloading { manual, version, update },
            UpdateEventView::Downloaded(bytes),
        ) => UpdateTurn {
            pending: Some(crate::state::PendingUpdateView { version, update, bytes }),
            downloading,
            flow: UpdateFlowView::Announcing { manual, version },
        },
        (UpdateFlowView::Announcing { manual, .. }, UpdateEventView::Announced) => if manual {
            prompted(pending, downloading)
        } else {
            over(pending, Ok(()))
        },
        (UpdateFlowView::Asking { pending: p, .. }, UpdateEventView::Chosen(now)) => if now {
            UpdateTurn {
                pending,
                downloading,
                flow: UpdateFlowView::Installing { asked: true, pending: p },
            }
        } else {
            over(Some(p), Ok(()))
        },
        (UpdateFlowView::Installing { .. }, UpdateEventView::Installed) => UpdateTurn {
            pending,
            downloading,
            flow: UpdateFlowView::Restarting,
        },
        (
            UpdateFlowView::Installing { asked, pending: p },
            UpdateEventView::Failed(cause),
        ) => if asked {
            UpdateTurn {
                pending,
                downloading,
                flow: UpdateFlowView::Reporting {
                    dialog: notice("Install failed: "@ + cause),
                    result: Ok(()),
                },
            }
        } else {
            UpdateTurn {
                pending: Some(p),
                downloading,
                flow: UpdateFlowView::Reporting {
                    dialog: notice("Install failed: "@ + cause),
                    result: Err(cause),
                },
            }
        },
        (UpdateFlowView::Reporting { result, .. }, UpdateEventView::Dismissed) => over(
            pending,
            result,
        ),
        _ => UpdateTurn { pending, downloading, flow },
    }
}

/// A dialog that only tells something.
fn notice_dialog(message: String) -> (res: Dialog)
    ensures
        res@ == notice(message@),
{
    Dialog { title: "DeepSeek Harness".to_owned(), message }
}

/// The dialog that asks whether to install a version now.
fn restart_dialog(version: &str) -> (res: Dialog)
    ensures
        res@ == restart_prompt(version@),
{
    Dialog {
        title: "Update Ready".to_owned(),
        message: "DeepSeek Harness ".to_owned().concat(version).concat(
            " has been downloaded.\n\nRestart now to install the update?",
        ),
    }
}

/// Asks the user about the pending update.
fn prompt_and_install<U>(state: &mut AppState<U>) -> (res: UpdateFlow<U>)
    ensures
        update_turn(*final(state), res) == prompted(
            old(state)@.pending,
            old(state)@.downloading,
        ),
        final(state)@ == (crate::state::AppStateView {
            pending: final(state)@.pending,
            downloading: final(state)@.downloading,
            ..old(state)@
        }),
{
    match state.pending.take() {
        Some(pending) => {
            let prompt = restart_dialog(pending.version.as_str());
            UpdateFlow::Asking { prompt, pending }
        },
        None => {
            state.downloading = false;
            UpdateFlow::Over(Ok(()))
        },
    }
}

/// Begins to install the downloaded update, without asking again: the user
/// asked for it.
pub fn install_update<U>(state: &mut AppState<U>) -> (res: UpdateFlow<U>)
    ensures
        update_turn(*final(state), res) == install_begins(
            old(state)@.pending,
            old(state)@.downloading,
        ),
        final(state)@ == (crate::state::AppStateView {
            pending: final(state)@.pending,
            downloading: final(state)@.downloading,
            ..old(state)@
        }),
{
    if state.downloading {
        return UpdateFlow::Over(Err("Another update operation is already running.".to_owned()));
    }
    match state.pending.take() {
        Some(pending) => {
            state.downloading = true;
            UpdateFlow::Installing { asked: false, pending }
        },
        None => UpdateFlow::Over(Err("No downloaded update is available.".to_owned())),
    }
}

/// Begins a check that the user asked for. If an update is already downloaded,
/// the user is asked about it instead.
pub fn check_for_updates<U>(state: &mut AppState<U>) -> (res: UpdateFlow<U>)
    ensures
        update_turn(*final(state), res) == check_begins(
            old(state)@.pending,
            old(state)@.downloading,
        ),
        final(state)@ == (crate::state::AppStateView {
            pending: final(state)@.pending,
            downloading: final(state)@.downloading,
            ..old(state)@
        }),
{
    if state.downloading {
        return UpdateFlow::Over(Ok(()));
    }
    state.downloading = true;
    if state.pending.is_some() {
        prompt_and_install(state)
    } else {
        UpdateFlow::Checking { manual: true }
    }
}

/// Begins a check in the background, unless an update is already downloaded or
/// an operation is in progress.
pub fn auto_update_check<U>(state: &mut AppState<U>) -> (res: UpdateFlow<U>)
    ensures
        update_turn(*final(state), res) == auto_check_begins(
            old(state)@.pending,
            old(state)@.downloading,
        ),
        final(state)@ == (crate::state::AppStateView {
            pending: final(state)@.pending,
            downloading: final(state)@.downloading,
            ..old(state)@
        }),
{
    if state.pending.is_some() || state.downloading {
        UpdateFlow::Over(Ok(()))
    } else {
        state.downloading = true;
        UpdateFlow::Checking { manual: false }
    }
}

/// How long to wait before a check in the background, in seconds.
pub fn check_delay(first: bool) -> (res: u64)
    ensures
        res == if first {
            FIRST_CHECK_DELAY_SECS
        } else {
            CHECK_INTERVAL_SECS
        },
{
    if first {
        FIRST_CHECK_DELAY_SECS
    } else {
        CHECK_INTERVAL_SECS
    }
}

/// Ends an operation: tells the user where they asked for it.
fn tell<U>(state: &mut AppState<U>, manual: bool, message: String) -> (res: UpdateFlow<U>)
    ensures
        update_turn(*final(state), res) == told(
            old(state)@.pending,
            old(state)@.downloading,
            manual,
            message@,
        ),
        final(state)@ == (crate::state::AppStateView {
            pending: final(state)@.pending,
            downloading: final(state)@.downloading,
            ..old(state)@
        }),
{
    if manual {
        UpdateFlow::Reporting { dialog: notice_dialog(message), result: Ok(()) }
    } else {
        state.downloading = false;
        UpdateFlow::Over(Ok(()))
    }
}

impl<U> UpdateFlow<U> {
    /// Takes what has happened. Only the updater's part of the shared state may
    /// change.
    pub fn next(self, state: &mut AppState<U>, event: UpdateEvent<U>) -> (res: UpdateFlow<U>)
        ensures
            update_turn(*final(state), res) == update_next(
                old(state)@.pending,
                old(state)@.downloading,
                self@,
                event@,
            ),
            final(state)@ == (crate::state::AppStateView {
                pending: final(state)@.pending,
                downloading: final(state)@.downloading,
                ..old(state)@
            }),
    {
        match (self, event) {
            (UpdateFlow::Checking { manual }, UpdateEvent::UpToDate) => tell(
                state,
                manual,
                "You are running the latest version.".to_owned(),
            ),
            (UpdateFlow::Checking { manual }, UpdateEvent::Failed(cause)) => tell(
                state,
                manual,
                "Update check failed: ".to_owned().concat(cause.as_str()),
            ),
            (
                UpdateFlow::Checking { manual },
                UpdateEvent::Found { version, update },
            ) => UpdateFlow::Downloading { manual, version, update },
            (UpdateFlow::Downloading { manual, .. }, UpdateEvent::Failed(cause)) => tell(
                state,
                manual,
                "Update check failed: ".to_owned().concat(cause.as_str()),
            ),
            (
                UpdateFlow::Downloading { manual, version, update },
                UpdateEvent::Downloaded(bytes),
            ) => {
                let payload = UpdatePayload { version: version.clone() };
                state.pending = Some(PendingUpdate { version, update, bytes });
                UpdateFlow::Announcing { manual, payload }
            },
            (UpdateFlow::Announcing { manual, .. }, UpdateEvent::Announced) => if manual {
                prompt_and_install(state)
            } else {
                state.downloading = false;
                UpdateFlow::Over(Ok(()))
            },
            (UpdateFlow::Asking { pending, .. }, UpdateEvent::Chosen(now)) => if now {
                UpdateFlow::Installing { asked: true, pending }
            } else {
                state.pending = Some(pending);
                state.downloading = false;
                UpdateFlow::Over(Ok(()))
            },
            (UpdateFlow::Installing { .. }, UpdateEvent::Installed) => UpdateFlow::Restarting,
            (UpdateFlow::Installing { asked, pending }, UpdateEvent::Failed(cause)) => {
                let dialog = notice_dialog("Install failed: ".to_owned().concat(cause.as_str()));
                if asked {
                    UpdateFlow::Reporting { dialog, result: Ok(()) }
                } else {
                    state.pending = Some(pending);
                    UpdateFlow::Reporting { dialog, result: Err(cause) }
                }
            },
            (UpdateFlow::Reporting { result, .. }, UpdateEvent::Dismissed) => {
                state.downloading = false;
                UpdateFlow::Over(result)
            },
            (flow, _) => flow,
        }
    }
}

/// What holds throughout an operation: it is marked as in progress until it is
/// over; an update that is being looked for, downloaded, asked about or
/// installed is not held twice; and an announced version is the one pending.
pub open spec fn update_wf<U>(turn: UpdateTurn<U>) -> bool {
    &&& turn.flow is Over || turn.downloading
    &&& match turn.flow {
        UpdateFlowView::Checking { .. } => turn.pending is None,
        UpdateFlowView::Downloading { .. } => turn.pending is None,
        UpdateFlowView::Announcing { version, .. } => turn.pending matches Some(p) && p.version
            == version,
        UpdateFlowView::Asking { prompt, pending } => turn.pending is None && prompt
            == restart_prompt(pending.version),
        UpdateFlowView::Installing { .. } => turn.pending is None,
        _ => true,
    }
}

/// How many downloaded versions are held, by the shared state and by the
/// operation.
pub open spec fn versions_held<U>(turn: UpdateTurn<U>) -> nat {
    let in_state: nat = if turn.pending is Some { 1 } else { 0 };
    let in_flow: nat = if turn.flow is Asking || turn.flow is Installing { 1 } else { 0 };
    in_state + in_flow
}

/// Every operation begins well-formed when none is in progress.
pub proof fn lemma_operations_begin<U>(pending: Option<crate::state::PendingUpdateView<U>>)
    ensures
        update_wf(install_begins(pending, false)),
        update_wf(check_begins(pending, false)),
        update_wf(auto_check_begins(pending, false)),
{
}

/// Every event keeps an operation well-formed.
pub proof fn lemma_operations_stay<U>(turn: UpdateTurn<U>, event: UpdateEventView<U>)
    requires
        update_wf(turn),
    ensures
        update_wf(update_next(turn.pending, turn.downloading, turn.flow, event)),
{
}

/// At most one downloaded version is held at any time.
pub proof fn lemma_one_version_at_a_time<U>(turn: UpdateTurn<U>)
    requires
        update_wf(turn),
    ensures
        versions_held(turn) <= 1,
{
}

/// While an operation is in progress, no other one begins, and the attempt
/// changes nothing.
pub proof fn lemma_one_operation_at_a_time<U>(
    pending: Option<crate::state::PendingUpdateView<U>>,
)
    ensures
        install_begins(pending, true) == (UpdateTurn {
            pending,
            downloading: true,
            flow: UpdateFlowView::Over(Err("Another update operation is already running."@)),
        }),
        check_begins(pending, true) == (UpdateTurn {
            pending,
            downloading: true,
            flow: UpdateFlowView::Over(Ok(())),
        }),
        auto_check_begins(pending, true) == (UpdateTurn {
            pending,
            downloading: true,
            flow: UpdateFlowView::Over(Ok(())),
        }),
{
}

/// While an update is pending, no new one is looked for: neither in the
/// background nor by the user.
pub proof fn lemma_nothing_new_while_pending<U>(
    pending: crate::state::PendingUpdateView<U>,
    downloading: bool,
)
    ensures
        !(auto_check_begins(Some(pending), downloading).flow is Checking),
        !(check_begins(Some(pending), downloading).flow is Checking),
        !(install_begins(Some(pending), downloading).flow is Checking),
        auto_check_begins(Some(pending), downloading).pending == Some(pending),
{
}

/// A version is announced only once its download is complete, and what is then
/// pending is that version with the bytes that were downloaded.
pub proof fn lemma_announced_once_downloaded<U>(turn: UpdateTurn<U>, event: UpdateEventView<U>)
    requires
        !(turn.flow is Announcing),
        update_next(turn.pending, turn.downloading, turn.flow, event).flow is Announcing,
    ensures
        ({
            let next = update_next(turn.pending, turn.downloading, turn.flow, event);
            &&& turn.flow is Downloading
            &&& event is Downloaded
            &&& next.flow->Announcing_version == turn.flow->Downloading_version
            &&& next.pending == Some(
                crate::state::PendingUpdateView {
                    version: turn.flow->Downloading_version,
                    update: turn.flow->Downloading_update,
                    bytes: event->Downloaded_0,
                },
            )
        }),
{
}

/// When an operation ends, the next one may begin.
pub proof fn lemma_end_frees_the_way<U>(turn: UpdateTurn<U>, event: UpdateEventView<U>)
    requires
        !(turn.flow is Over),
        update_next(turn.pending, turn.downloading, turn.flow, event).flow is Over,
    ensures
        !update_next(turn.pending, turn.downloading, turn.flow, event).downloading,
{
}

/// An installation that was begun without a prompt and that fails is reported,
/// with its cause as the result, and can be tried again with the same download.
pub proof fn lemma_failed_install_can_be_retried<U>(
    pending: crate::state::PendingUpdateView<U>,
    cause: Seq<char>,
)
    ensures
        ({
            let begun = install_begins(Some(pending), false);
            let failed = update_next(
                begun.pending,
                begun.downloading,
                begun.flow,
                UpdateEventView::Failed(cause),
            );
            let ended = update_next(
                failed.pending,
                failed.downloading,
                failed.flow,
                UpdateEventView::Dismissed,
            );
            &&& failed.flow == (UpdateFlowView::<U>::Reporting {
                dialog: notice("Install failed: "@ + cause),
                result: Err(cause),
            })
            &&& ended.flow == UpdateFlowView::<U>::Over(Err(cause))
            &&& install_begins(ended.pending, ended.downloading) == begun
        }),
{
}

/// An installation that the user chose in the prompt and that fails is reported
/// too. Its download is given up: the next check looks for the latest version
/// again.
pub proof fn lemma_failed_prompted_install_is_given_up<U>(
    pending: crate::state::PendingUpdateView<U>,
    cause: Seq<char>,
)
    ensures
        ({
            let asked = check_begins(Some(pending), false);
            let chosen = update_next(
                asked.pending,
                asked.downloading,
                asked.flow,
                UpdateEventView::Chosen(true),
            );
            let failed = update_next(
                chosen.pending,
                chosen.downloading,
                chosen.flow,
                UpdateEventView::Failed(cause),
            );
            let ended = update_next(
                failed.pending,
                failed.downloading,
                failed.flow,
                UpdateEventView::Dismissed,
            );
            &&& chosen.flow == (UpdateFlowView::<U>::Installing { asked: true, pending })
            &&& failed.flow == (UpdateFlowView::<U>::Reporting {
                dialog: notice("Install failed: "@ + cause),
                result: Ok(()),
            })
            &&& ended == over::<U>(None, Ok(()))
            &&& check_begins(ended.pending, ended.downloading).flow == (
            UpdateFlowView::<U>::Checking { manual: true })
        }),
{
}

/// An update that is put off stays: the user is asked about it again, and may
/// install it, without a new download.
pub proof fn lemma_later_keeps_the_update<U>(pending: crate::state::PendingUpdateView<U>)
    ensures
        ({
            let asked = check_begins(Some(pending), false);
            let ended = update_next(
                asked.pending,
                asked.downloading,
                asked.flow,
                UpdateEventView::Chosen(false),
            );
            &&& asked.flow is Asking
            &&& ended == over(Some(pending), Ok(()))
            &&& check_begins(ended.pending, ended.downloading) == asked
            &&& install_begins(ended.pending, ended.downloading).flow == (
            UpdateFlowView::<U>::Installing { asked: false, pending })
        }),
{
}

/// An update that the user asked to install is installed without asking again,
/// and the application then restarts.
pub proof fn lemma_install_asks_nothing<U>(pending: crate::state::PendingUpdateView<U>)
    ensures
        ({
            let begun = install_begins(Some(pending), false);
            let installed = update_next(
                begun.pending,
                begun.downloading,
                begun.flow,
                UpdateEventView::Installed,
            );
            &&& begun.flow == (UpdateFlowView::<U>::Installing { asked: false, pending })
            &&& installed.flow == UpdateFlowView::<U>::Restarting
        }),
{
}

/// Whether an operation was begun in the background and is still to end.
pub open spec fn in_background<U>(flow: UpdateFlowView<U>) -> bool {
    match flow {
        UpdateFlowView::Checking { manual } => !manual,
        UpdateFlowView::Downloading { manual, .. } => !manual,
        UpdateFlowView::Announcing { manual, .. } => !manual,
        _ => false,
    }
}

/// An operation in the background never shows a dialog: each of its steps leads
/// to another step in the background or to its end.
pub proof fn lemma_background_is_silent<U>(turn: UpdateTurn<U>, event: UpdateEventView<U>)
    requires
        in_background(turn.flow),
    ensures
        ({
            let next = update_next(turn.pending, turn.downloading, turn.flow, event);
            in_background(next.flow) || next.flow == UpdateFlowView::<U>::Over(Ok(()))
        }),
{
}

} // verus!
