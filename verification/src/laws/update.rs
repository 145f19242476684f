//! Laws of updates.

use vstd::prelude::*;

#[allow(unused_imports)]
use crate::update::{
    self, CHECK_INTERVAL_SECS, Dialog, DialogView, FIRST_CHECK_DELAY_SECS, UpdateEvent,
    UpdateEventView, UpdateFlow, UpdateFlowView, UpdatePayload, UpdateTurn,
};
#[allow(unused_imports)]
use crate::state::{AppState, PendingUpdate};

verus! {

/// A version that was found is downloaded, under its own name and whatever it
/// is, and its download is then pending and announced. The version, the handle
/// and the bytes are the ones that were found and downloaded.
pub proof fn lemma_found_version_is_downloaded<U>(
    manual: bool,
    version: Seq<char>,
    update: U,
    bytes: Seq<u8>,
)
    ensures
        ({
            let begun = if manual {
                update::check_begins(None::<crate::state::PendingUpdateView<U>>, false)
            } else {
                update::auto_check_begins(None::<crate::state::PendingUpdateView<U>>, false)
            };
            let found = update::update_next(
                begun.pending,
                begun.downloading,
                begun.flow,
                UpdateEventView::Found { version, update },
            );
            let downloaded = update::update_next(
                found.pending,
                found.downloading,
                found.flow,
                UpdateEventView::Downloaded(bytes),
            );
            &&& begun.flow == (UpdateFlowView::<U>::Checking { manual })
            &&& found.flow == (UpdateFlowView::<U>::Downloading { manual, version, update })
            &&& found.pending is None
            &&& downloaded.flow == (UpdateFlowView::<U>::Announcing { manual, version })
            &&& downloaded.pending == Some(
                crate::state::PendingUpdateView { version, update, bytes },
            )
            &&& downloaded.downloading
        }),
{
}

/// Whatever the shared state is, a version that was found leads to its download,
/// and a download that is complete to its announcement.
pub proof fn lemma_each_version_goes_its_way<U>(
    pending: Option<crate::state::PendingUpdateView<U>>,
    downloading: bool,
    manual: bool,
    version: Seq<char>,
    update: U,
    bytes: Seq<u8>,
)
    ensures
        update::update_next(
            pending,
            downloading,
            UpdateFlowView::Checking { manual },
            UpdateEventView::Found { version, update },
        ) == (UpdateTurn {
            pending,
            downloading,
            flow: UpdateFlowView::Downloading { manual, version, update },
        }),
        update::update_next(
            pending,
            downloading,
            UpdateFlowView::Downloading { manual, version, update },
            UpdateEventView::Downloaded(bytes),
        ) == (UpdateTurn {
            pending: Some(crate::state::PendingUpdateView { version, update, bytes }),
            downloading,
            flow: UpdateFlowView::Announcing { manual, version },
        }),
{
}

/// How an operation begins, when none is in progress: an installation takes the
/// pending update, or fails without one; a check that the user asked for takes
/// it to ask about it, or looks for one; a check in the background leaves a
/// pending update alone, or looks for one.
pub proof fn lemma_how_operations_begin<U>(pending: crate::state::PendingUpdateView<U>)
    ensures
        update::install_begins(Some(pending), false) == (UpdateTurn {
            pending: None,
            downloading: true,
            flow: UpdateFlowView::Installing { asked: false, pending },
        }),
        update::install_begins(None::<crate::state::PendingUpdateView<U>>, false) == (UpdateTurn {
            pending: None,
            downloading: false,
            flow: UpdateFlowView::<U>::Over(Err("No downloaded update is available."@)),
        }),
        update::check_begins(Some(pending), false) == (UpdateTurn {
            pending: None,
            downloading: true,
            flow: UpdateFlowView::Asking {
                prompt: DialogView {
                    title: "Update Ready"@,
                    message: "DeepSeek Harness "@ + pending.version
                        + " has been downloaded.\n\nRestart now to install the update?"@,
                },
                pending,
            },
        }),
        update::check_begins(None::<crate::state::PendingUpdateView<U>>, false) == (UpdateTurn {
            pending: None,
            downloading: true,
            flow: UpdateFlowView::<U>::Checking { manual: true },
        }),
        update::auto_check_begins(Some(pending), false) == (UpdateTurn {
            pending: Some(pending),
            downloading: false,
            flow: UpdateFlowView::<U>::Over(Ok(())),
        }),
        update::auto_check_begins(None::<crate::state::PendingUpdateView<U>>, false) == (UpdateTurn {
            pending: None,
            downloading: true,
            flow: UpdateFlowView::<U>::Checking { manual: false },
        }),
{
}

/// The user is told of the end of a check that they asked for: that there is
/// nothing new, or the reason why the check or the download failed. The
/// operation ends when they have dismissed that. A check in the background ends
/// at once.
pub proof fn lemma_how_a_check_ends<U>(
    pending: Option<crate::state::PendingUpdateView<U>>,
    downloading: bool,
    version: Seq<char>,
    update: U,
    cause: Seq<char>,
)
    ensures
        ({
            let silent = UpdateTurn {
                pending,
                downloading: false,
                flow: UpdateFlowView::<U>::Over(Ok(())),
            };
            let failed = UpdateTurn {
                pending,
                downloading,
                flow: UpdateFlowView::<U>::Reporting {
                    dialog: DialogView {
                        title: "DeepSeek Harness"@,
                        message: "Update check failed: "@ + cause,
                    },
                    result: Ok(()),
                },
            };
            let latest = UpdateTurn {
                pending,
                downloading,
                flow: UpdateFlowView::<U>::Reporting {
                    dialog: DialogView {
                        title: "DeepSeek Harness"@,
                        message: "You are running the latest version."@,
                    },
                    result: Ok(()),
                },
            };
            let up_to_date = UpdateEventView::<U>::UpToDate;
            let failure = UpdateEventView::<U>::Failed(cause);
            let checking = UpdateFlowView::<U>::Checking { manual: true };
            let checking_silently = UpdateFlowView::<U>::Checking { manual: false };
            let loading = UpdateFlowView::Downloading { manual: true, version, update };
            let loading_silently = UpdateFlowView::Downloading { manual: false, version, update };
            &&& update::update_next(pending, downloading, checking, up_to_date) == latest
            &&& update::update_next(pending, downloading, checking, failure) == failed
            &&& update::update_next(pending, downloading, loading, failure) == failed
            &&& update::update_next(pending, downloading, checking_silently, up_to_date) == silent
            &&& update::update_next(pending, downloading, checking_silently, failure) == silent
            &&& update::update_next(pending, downloading, loading_silently, failure) == silent
        }),
{
}

/// Behind its announcement, the user is asked about the version that is pending,
/// which leaves the shared state meanwhile; in the background it stays, and the
/// operation ends.
pub proof fn lemma_behind_the_announcement<U>(
    pending: crate::state::PendingUpdateView<U>,
    downloading: bool,
    version: Seq<char>,
)
    ensures
        update::update_next(
            Some(pending),
            downloading,
            UpdateFlowView::Announcing { manual: true, version },
            UpdateEventView::Announced,
        ) == (UpdateTurn {
            pending: None,
            downloading,
            flow: UpdateFlowView::Asking {
                prompt: DialogView {
                    title: "Update Ready"@,
                    message: "DeepSeek Harness "@ + pending.version
                        + " has been downloaded.\n\nRestart now to install the update?"@,
                },
                pending,
            },
        }),
        update::update_next(
            None,
            downloading,
            UpdateFlowView::<U>::Announcing { manual: true, version },
            UpdateEventView::Announced,
        ) == (UpdateTurn { pending: None, downloading: false, flow: UpdateFlowView::<U>::Over(Ok(())) }),
        forall|held: Option<crate::state::PendingUpdateView<U>>|
            #[trigger] update::update_next(
                held,
                downloading,
                UpdateFlowView::Announcing { manual: false, version },
                UpdateEventView::Announced,
            ) == (UpdateTurn {
                pending: held,
                downloading: false,
                flow: UpdateFlowView::<U>::Over(Ok(())),
            }),
{
}

/// The choice of the user decides: now, and the update that they were asked
/// about is installed; later, and it is pending again.
pub proof fn lemma_the_choice_decides<U>(
    held: Option<crate::state::PendingUpdateView<U>>,
    downloading: bool,
    prompt: DialogView,
    pending: crate::state::PendingUpdateView<U>,
)
    ensures
        update::update_next(
            held,
            downloading,
            UpdateFlowView::Asking { prompt, pending },
            UpdateEventView::Chosen(true),
        ) == (UpdateTurn {
            pending: held,
            downloading,
            flow: UpdateFlowView::Installing { asked: true, pending },
        }),
        update::update_next(
            held,
            downloading,
            UpdateFlowView::Asking { prompt, pending },
            UpdateEventView::Chosen(false),
        ) == (UpdateTurn {
            pending: Some(pending),
            downloading: false,
            flow: UpdateFlowView::<U>::Over(Ok(())),
        }),
{
}

/// How an installation ends: an installed update restarts the application; one
/// that failed is reported with the cause. It is pending again, and the cause is
/// the result, unless the user was asked. The operation ends with its result
/// when the report was dismissed.
pub proof fn lemma_how_an_installation_ends<U>(
    held: Option<crate::state::PendingUpdateView<U>>,
    downloading: bool,
    asked: bool,
    pending: crate::state::PendingUpdateView<U>,
    cause: Seq<char>,
    dialog: DialogView,
    result: Result<(), Seq<char>>,
)
    ensures
        update::update_next(
            held,
            downloading,
            UpdateFlowView::Installing { asked, pending },
            UpdateEventView::Installed,
        ) == (UpdateTurn { pending: held, downloading, flow: UpdateFlowView::Restarting }),
        update::update_next(
            held,
            downloading,
            UpdateFlowView::Installing { asked, pending },
            UpdateEventView::Failed(cause),
        ) == (UpdateTurn {
            pending: if asked {
                held
            } else {
                Some(pending)
            },
            downloading,
            flow: UpdateFlowView::Reporting {
                dialog: DialogView {
                    title: "DeepSeek Harness"@,
                    message: "Install failed: "@ + cause,
                },
                result: if asked {
                    Ok(())
                } else {
                    Err(cause)
                },
            },
        }),
        update::update_next(
            held,
            downloading,
            UpdateFlowView::Reporting { dialog, result },
            UpdateEventView::Dismissed,
        ) == (UpdateTurn {
            pending: held,
            downloading: false,
            flow: UpdateFlowView::<U>::Over(result),
        }),
{
}

/// An event that is not awaited changes nothing, and neither does any event once
/// the operation is over or the application restarts.
pub proof fn lemma_update_ignores_other_events<U>(
    pending: Option<crate::state::PendingUpdateView<U>>,
    downloading: bool,
    flow: UpdateFlowView<U>,
    event: UpdateEventView<U>,
)
    requires
        flow is Checking ==> !(event is UpToDate || event is Found || event is Failed),
        flow is Downloading ==> !(event is Downloaded || event is Failed),
        flow is Announcing ==> !(event is Announced),
        flow is Asking ==> !(event is Chosen),
        flow is Installing ==> !(event is Installed || event is Failed),
        flow is Reporting ==> !(event is Dismissed),
    ensures
        update::update_next(pending, downloading, flow, event) == (UpdateTurn {
            pending,
            downloading,
            flow,
        }),
{
}

/// What the user is shown: the version that they are asked about, and each
/// message as it is.
pub proof fn lemma_dialogs(version: Seq<char>, message: Seq<char>)
    ensures
        update::restart_prompt(version).title == "Update Ready"@,
        update::restart_prompt(version).message == "DeepSeek Harness "@ + version
            + " has been downloaded.\n\nRestart now to install the update?"@,
        update::notice(message).title == "DeepSeek Harness"@,
        update::notice(message).message == message,
{
}

/// The first check comes 20 seconds after the launch, and one every half hour
/// behind it.
pub proof fn lemma_check_times()
    ensures
        FIRST_CHECK_DELAY_SECS == 20,
        CHECK_INTERVAL_SECS == 30 * 60,
{
}

/// A turn of an operation says the updater's part of the shared state, and what
/// is awaited.
pub proof fn lemma_update_turn_says<U>(state: AppState<U>, flow: UpdateFlow<U>)
    ensures
        state.pending matches Some(held) ==> update::update_turn(state, flow).pending == Some(held@),
        state.pending is None ==> update::update_turn(state, flow).pending is None,
        update::update_turn(state, flow).downloading == state.downloading,
        update::update_turn(state, flow).flow == flow@,
{
}

/// A dialog, a result, an operation and an event say what they hold.
pub proof fn lemma_update_says<U>(
    manual: bool,
    version: String,
    update: U,
    payload: UpdatePayload,
    dialog: Dialog,
    pending: PendingUpdate<U>,
    bytes: Vec<u8>,
)
    ensures
        dialog@.title == dialog.title@,
        dialog@.message == dialog.message@,
        update::result_view(Ok(())) == Ok::<(), Seq<char>>(()),
        update::result_view(Err(version)) == Err::<(), Seq<char>>(version@),
        (UpdateFlow::<U>::Checking { manual })@ == (UpdateFlowView::<U>::Checking { manual }),
        (UpdateFlow::Downloading { manual, version, update })@ == (UpdateFlowView::Downloading {
            manual,
            version: version@,
            update,
        }),
        (UpdateFlow::<U>::Announcing { manual, payload })@ == (UpdateFlowView::<U>::Announcing {
            manual,
            version: payload.version@,
        }),
        (UpdateFlow::Asking { prompt: dialog, pending })@ == (UpdateFlowView::Asking {
            prompt: dialog@,
            pending: pending@,
        }),
        (UpdateFlow::Installing { asked: manual, pending })@ == (UpdateFlowView::Installing {
            asked: manual,
            pending: pending@,
        }),
        (UpdateFlow::<U>::Reporting { dialog, result: Ok(()) })@ == (UpdateFlowView::<
            U,
        >::Reporting { dialog: dialog@, result: Ok(()) }),
        (UpdateFlow::<U>::Reporting { dialog, result: Err(version) })@ == (UpdateFlowView::<
            U,
        >::Reporting { dialog: dialog@, result: Err(version@) }),
        UpdateFlow::<U>::Restarting@ == UpdateFlowView::<U>::Restarting,
        UpdateFlow::<U>::Over(Ok(()))@ == UpdateFlowView::<U>::Over(Ok(())),
        UpdateFlow::<U>::Over(Err(version))@ == UpdateFlowView::<U>::Over(Err(version@)),
        UpdateEvent::<U>::UpToDate@ == UpdateEventView::<U>::UpToDate,
        (UpdateEvent::Found { version, update })@ == (UpdateEventView::Found {
            version: version@,
            update,
        }),
        UpdateEvent::<U>::Downloaded(bytes)@ == UpdateEventView::<U>::Downloaded(bytes@),
        UpdateEvent::<U>::Announced@ == UpdateEventView::<U>::Announced,
        UpdateEvent::<U>::Chosen(manual)@ == UpdateEventView::<U>::Chosen(manual),
        UpdateEvent::<U>::Installed@ == UpdateEventView::<U>::Installed,
        UpdateEvent::<U>::Dismissed@ == UpdateEventView::<U>::Dismissed,
        UpdateEvent::<U>::Failed(version)@ == UpdateEventView::<U>::Failed(version@),
{
}

} // verus!
