//! Laws of the status of the backend.

use vstd::prelude::*;

#[allow(unused_imports)]
use crate::status::{self, BackendStatus};

verus! {

/// Each status is told by its own word. Only a backend that listens has a URL,
/// and it is the one given; only a backend that does not run has a message, and
/// where it did not come up, the message is the reason given.
pub proof fn lemma_statuses(url: Seq<char>, message: Seq<char>)
    ensures
        status::starting_status().state == "starting"@,
        status::starting_status().url is None && status::starting_status().message is None,
        status::ready_status(url).state == "ready"@,
        status::ready_status(url).url == Some(url) && status::ready_status(url).message is None,
        status::stopped_status().state == "stopped"@,
        status::stopped_status().url is None && status::stopped_status().message == Some(
            "backend process exited; restarting…"@,
        ),
        status::error_status(message).state == "error"@,
        status::error_status(message).url is None && status::error_status(message).message == Some(message),
{
}

/// A status says the texts of its fields.
pub proof fn lemma_status_says(status: BackendStatus)
    ensures
        status@.state == status.state@,
        status.url matches Some(url) ==> status@.url == Some(url@),
        status.url is None ==> status@.url is None,
        status.message matches Some(message) ==> status@.message == Some(message@),
        status.message is None ==> status@.message is None,
{
}

} // verus!
