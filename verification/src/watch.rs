//! The watch-session manager: the one stateful component. It owns a
//! single slot that holds either nothing or the path of one live
//! filesystem watch, and guarantees that starting a new watch replaces
//! any previous one and that stopping is idempotent.

use vstd::prelude::*;

verus! {

/// Owns the single watch slot. At most one watch session is active at
/// any time: the slot records the path of the live watch, or nothing.
/// The unverified shell keeps the underlying OS watcher handle in step
/// with this record under one lock.
pub struct WatchManager {
    active: Option<String>,
}

impl WatchManager {
    /// The path observed by the active watch session, if one is live.
    pub closed spec fn active_path(&self) -> Option<Seq<char>> {
        match self.active {
            Some(p) => Some(p@),
            None => None,
        }
    }

    /// A fresh manager holds no active watch.
    pub fn new() -> (m: Self)
        ensures
            m.active_path() is None,
    {
        WatchManager { active: None }
    }

    /// The path of the active watch session, if one is live.
    pub fn watched_path(&self) -> (r: Option<&String>)
        ensures
            match r {
                Some(p) => self.active_path() == Some(p@),
                None => self.active_path() is None,
            },
    {
        match &self.active {
            Some(p) => Some(p),
            None => None,
        }
    }

    /// Records the outcome of starting a watch on `path`, replacing
    /// whatever watch was active before. On a successful registration
    /// the slot holds exactly the new path; on a failed one the error
    /// is reported unchanged and the slot is left empty, never holding
    /// a partial or stale watch. The prior watch is discarded either
    /// way, whether or not one existed.
    pub fn start_watch(&mut self, path: String, registration: Result<(), String>) -> (r: Result<
        (),
        String,
    >)
        ensures
            registration is Ok ==> final(self).active_path() == Some(path@) && r is Ok,
            registration matches Err(e) ==> final(self).active_path() is None && r == Err::<
                (),
                String,
            >(e),
    {
        match registration {
            Ok(()) => {
                self.active = Some(path);
                Ok(())
            },
            Err(e) => {
                self.active = None;
                Err(e)
            },
        }
    }

    /// Stops the active watch session, if any. Always succeeds and
    /// leaves the slot empty: stopping with no active watch is a
    /// harmless no-op, so the operation is idempotent.
    pub fn stop_watch(&mut self) -> (r: Result<(), String>)
        ensures
            final(self).active_path() is None,
            r is Ok,
    {
        self.active = None;
        Ok(())
    }
}

/// Whether a filesystem event reported by the watcher triggers one
/// `file-changed` notification to the UI: every successfully delivered
/// event does, with no filtering by event kind, and every watcher error
/// is dropped silently.
pub fn notification_for_event(event: Result<(), String>) -> (notify: bool)
    ensures
        notify == (event is Ok),
{
    match event {
        Ok(()) => true,
        Err(_) => false,
    }
}

} // verus!
