//! The file-watch signal channel and the watch registration state.
//!
//! Filesystem notifications arrive asynchronously from a watcher the
//! driving layer owns; the core only needs a coalesced "something changed"
//! tick per tracked path.  [`SignalChannel`] models that queue: arriving
//! events of the interesting kinds set one pending flag, and a consumer
//! that drains once per tick sees at most one signal however many events
//! arrived.  [`WatchState`] records which single path is watched and
//! tolerates a watch that failed to start.

use vstd::prelude::*;

verus! {

/// The kinds of filesystem events a watcher can report.
#[derive(Clone, Copy, Debug, PartialEq, Eq, Structural)]
pub enum WatchEventKind {
    Create,
    Modify,
    Remove,
    Rename,
    MetadataOnly,
    Other,
}

/// Only content modification and (re)creation of the tracked file are
/// worth a reload; every other kind is dropped.
pub open spec fn event_forwards(kind: WatchEventKind) -> bool {
    kind is Create || kind is Modify
}

/// A bounded, non-blocking signal queue of capacity one: arriving signals
/// coalesce into a single pending tick.
pub struct SignalChannel {
    pending: bool,
}

impl SignalChannel {
    /// Is a tick pending?
    pub closed spec fn has_pending(self) -> bool {
        self.pending
    }

    /// A fresh channel holds no tick.
    pub fn new() -> (r: Self)
        ensures
            !r.has_pending(),
    {
        SignalChannel { pending: false }
    }

    /// Take one filesystem event in: a modify or create event leaves a
    /// tick pending, any other kind changes nothing.
    pub fn notify(&mut self, kind: WatchEventKind)
        ensures
            final(self).has_pending() == (old(self).has_pending() || event_forwards(kind)),
    {
        match kind {
            WatchEventKind::Create => {
                self.pending = true;
            },
            WatchEventKind::Modify => {
                self.pending = true;
            },
            _ => {},
        }
    }

    /// Drain the channel: report whether a tick was pending and clear it,
    /// so a burst of events yields exactly one signal.
    pub fn drain(&mut self) -> (r: bool)
        ensures
            r == old(self).has_pending(),
            !final(self).has_pending(),
    {
        let r = self.pending;
        self.pending = false;
        r
    }
}

/// Which single path a pass's watcher is registered on, if any.  A watch
/// that could not be started leaves the pass unwatched but the tool
/// running: hot reload is then simply off for that pass.
pub struct WatchState {
    watching: Option<Vec<u8>>,
}

impl WatchState {
    /// The watched path, if one is registered.
    pub closed spec fn watched(self) -> Option<Seq<u8>> {
        match self.watching {
            Some(p) => Some(p@),
            None => None,
        }
    }

    /// No watch registered.
    pub fn new() -> (r: Self)
        ensures
            r.watched() is None,
    {
        WatchState { watching: None }
    }

    /// Point the watch at a new path.  The old registration is given up in
    /// the same step, so no two paths are ever watched at once; if the new
    /// watch failed to start, nothing is watched afterwards.
    pub fn repoint(&mut self, path: Vec<u8>, start_ok: bool)
        ensures
            final(self).watched() == if start_ok {
                Some(path@)
            } else {
                None::<Seq<u8>>
            },
    {
        if start_ok {
            self.watching = Some(path);
        } else {
            self.watching = None;
        }
    }
}

} // verus!
