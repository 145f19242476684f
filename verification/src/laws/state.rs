//! Laws of the shared state.

use vstd::prelude::*;

#[allow(unused_imports)]
use crate::state::{self, AppState, PendingUpdate};

verus! {

/// At the start there is no backend, no update, and nothing in progress.
pub proof fn lemma_initial_state<U>()
    ensures
        state::initial_state::<U>().pid is None,
        state::initial_state::<U>().url is None,
        !state::initial_state::<U>().shutting_down,
        state::initial_state::<U>().pending is None,
        !state::initial_state::<U>().downloading,
{
}

/// A reload goes to the published URL as it is, and to the splash page while
/// there is none.
pub proof fn lemma_reload_follows_the_published_url(url: Seq<char>)
    ensures
        state::reload_text(Some(url)) == url,
        state::reload_text(None) == "index.html"@,
{
}

/// The page of a backend is its URL and the root path; only the port that the
/// scheme implies is left out.
pub proof fn lemma_backend_page(port: u16)
    ensures
        port != 80 ==> state::backend_page(port) == "http://127.0.0.1:"@ + crate::text::decimal(
            port as nat,
        ) + "/"@,
        port == 80 ==> state::backend_page(port) == "http://127.0.0.1/"@,
{
}

/// The shared state and a pending update say what they hold.
pub proof fn lemma_state_says<U>(state: AppState<U>, pending: PendingUpdate<U>)
    ensures
        pending@.version == pending.version@,
        pending@.update == pending.update,
        pending@.bytes == pending.bytes@,
        state::optional_pending(Some(pending)) == Some(pending@),
        state::optional_pending(None::<PendingUpdate<U>>) is None,
        state@.pid == state.pid,
        state.url matches Some(url) ==> state@.url == Some(url@),
        state.url is None ==> state@.url is None,
        state@.shutting_down == state.shutting_down,
        state.pending matches Some(held) ==> state@.pending == Some(held@),
        state.pending is None ==> state@.pending is None,
        state@.downloading == state.downloading,
{
}

} // verus!
