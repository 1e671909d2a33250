//! The watcher's dispatch rules: which requests the bootstrap scan hands to
//! the reconciler, and what to do with each subscription event.

use crate::crd::{Request, StatusView};
use vstd::prelude::*;

verus! {

/// A request-resource event as the subscription delivers it.
pub enum WatchEvent {
    /// The resource was created or modified.
    Applied(Request),
    /// The resource was deleted.
    Deleted(Request),
    /// Anything else the subscription emits (resync, init markers).
    Other,
}

/// What the watcher does with one event's resource.
pub enum WatchAction {
    /// Hand the request to the reconciler.
    Reconcile,
    /// Nothing: the request is already terminal, or the event carries no
    /// work.
    Ignore,
    /// Note the deletion and continue; cleanup is the platform's cascade
    /// and the reaper.
    LogDeleted,
}

/// Whether the bootstrap scan reconciles a request: it has no status yet,
/// or its status is not ready.
pub open spec fn spec_should_bootstrap(status: Option<StatusView>) -> bool {
    match status {
        Some(st) => !st.ready,
        None => true,
    }
}

/// Whether the bootstrap scan hands this request to the reconciler.
pub fn should_bootstrap(r: &Request) -> (b: bool)
    ensures
        b == spec_should_bootstrap(r@.status),
{
    match &r.status {
        Some(st) => !st.ready,
        None => true,
    }
}

/// Whether a freshly applied request is reconciled: only one that carries
/// no status at all; any existing status is terminal for this controller.
pub open spec fn spec_should_reconcile(status: Option<StatusView>) -> bool {
    status is None
}

/// The watcher's decision for one subscription event: reconcile an applied
/// request without status, ignore an applied request with one, log a
/// deletion, ignore the rest.
pub fn handle_event(e: &WatchEvent) -> (a: WatchAction)
    ensures
        match e {
            WatchEvent::Applied(r) => if spec_should_reconcile(r@.status) {
                a is Reconcile
            } else {
                a is Ignore
            },
            WatchEvent::Deleted(_) => a is LogDeleted,
            WatchEvent::Other => a is Ignore,
        },
{
    match e {
        WatchEvent::Applied(r) => {
            if r.status.is_none() {
                WatchAction::Reconcile
            } else {
                WatchAction::Ignore
            }
        },
        WatchEvent::Deleted(_) => WatchAction::LogDeleted,
        WatchEvent::Other => WatchAction::Ignore,
    }
}

} // verus!
