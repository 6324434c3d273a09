//! Bookkeeping of the backend process supervisor.
//!
//! The supervisor owns at most one audio-rendering subprocess at a time.
//! Spawning, feeding and killing are byte- and OS-level work done outside
//! the library; what is verified here is the ledger the daemon keeps about
//! that subprocess: whether a handle is live, whether a stop is in flight,
//! and how an observed exit is classified.  The exit status alone cannot
//! tell a requested stop from a crash — the classification comes from
//! whether a stop was in flight when the exit was observed.

use vstd::prelude::*;

verus! {

/// The daemon's view of the live audio subprocess: its spawn generation,
/// standing in for the process identifier and pipe the daemon holds
/// outside the library.
#[derive(Clone, Copy, PartialEq, Eq, Structural, Debug)]
pub struct BackendProcessHandle {
    pub generation: u64,
}

/// How an observed subprocess exit is classified.
#[derive(Clone, Copy, PartialEq, Eq, Structural, Debug)]
pub enum ExitKind {
    /// A stop was in flight: the exit is the requested one.
    Requested,
    /// No stop was in flight and a handle was live: the subprocess died on
    /// its own.
    Crashed,
    /// No handle was live: a late notification about a subprocess already
    /// accounted for.
    Stale,
}

/// The generation the next spawn gets; it saturates rather than wrap, so a
/// generation never repeats.
pub open spec fn next_generation(g: u64) -> u64 {
    if g == u64::MAX {
        g
    } else {
        (g + 1) as u64
    }
}

/// The supervisor's ledger.
pub struct Supervisor {
    /// The live subprocess, if any; `None` means no subprocess exists.
    pub handle: Option<BackendProcessHandle>,
    /// Whether a stop was requested and its exit not yet observed.
    pub stop_requested: bool,
    /// How many spawns have happened.
    pub spawn_count: u64,
}

/// A stop can only be in flight for a subprocess that is already gone:
/// requesting a stop kills the subprocess before returning.
pub open spec fn sup_wf(s: Supervisor) -> bool {
    s.stop_requested ==> s.handle is None
}

impl Supervisor {
    /// A fresh ledger: no subprocess, nothing in flight.
    pub fn new() -> (s: Supervisor)
        ensures
            s.handle is None,
            !s.stop_requested,
            s.spawn_count == 0,
            sup_wf(s),
    {
        Supervisor { handle: None, stop_requested: false, spawn_count: 0 }
    }

    /// Whether a subprocess handle is live.
    pub fn live(&self) -> (b: bool)
        ensures
            b == (self.handle is Some),
    {
        match &self.handle {
            Some(_) => true,
            None => false,
        }
    }

    /// Records a spawn.  Only one subprocess may exist at a time, so a
    /// handle must not already be live.  The new handle gets the next
    /// generation and clears any stale stop flag.
    pub fn note_spawned(&mut self) -> (h: BackendProcessHandle)
        requires
            old(self).handle is None,
        ensures
            h.generation == next_generation(old(self).spawn_count),
            final(self).handle == Some(h),
            !final(self).stop_requested,
            final(self).spawn_count == next_generation(old(self).spawn_count),
            sup_wf(*final(self)),
    {
        let g = if self.spawn_count == u64::MAX {
            self.spawn_count
        } else {
            self.spawn_count + 1
        };
        self.spawn_count = g;
        self.stop_requested = false;
        let h = BackendProcessHandle { generation: g };
        self.handle = Some(h);
        h
    }

    /// Records a stop request.  The stop itself signals the subprocess and
    /// waits for it to die, so once recorded the handle is gone and the
    /// stop is in flight until its exit notification is observed.
    pub fn request_stop(&mut self)
        requires
            old(self).handle is Some,
        ensures
            final(self).handle is None,
            final(self).stop_requested,
            final(self).spawn_count == old(self).spawn_count,
            sup_wf(*final(self)),
    {
        self.handle = None;
        self.stop_requested = true;
    }

    /// Records an observed subprocess exit and classifies it: the
    /// requested one if a stop was in flight, a crash if a handle was
    /// live, stale otherwise.  Afterwards no handle is live and nothing is
    /// in flight.
    pub fn note_exit(&mut self) -> (k: ExitKind)
        ensures
            k == (if old(self).stop_requested {
                ExitKind::Requested
            } else if old(self).handle is Some {
                ExitKind::Crashed
            } else {
                ExitKind::Stale
            }),
            final(self).handle is None,
            !final(self).stop_requested,
            final(self).spawn_count == old(self).spawn_count,
            sup_wf(*final(self)),
    {
        let k = if self.stop_requested {
            ExitKind::Requested
        } else {
            match &self.handle {
                Some(_) => ExitKind::Crashed,
                None => ExitKind::Stale,
            }
        };
        self.handle = None;
        self.stop_requested = false;
        k
    }
}

} // verus!
