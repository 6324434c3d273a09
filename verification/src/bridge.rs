//! The control-surface bridge.
//!
//! The bridge exposes the daemon on a desktop media-control surface: it
//! answers property queries from the latest snapshot the state machine
//! published, and turns each new snapshot into change notices for the
//! surface.  Method invocations travel the other way as commands through
//! [`crate::mux::Multiplexer::submit_bridge`]; they are fire-and-forget —
//! the enqueue returns at once and the effect is observed through a later
//! snapshot.  A lost IPC connection only degrades the bridge: publishing
//! fails until the transport is back, and playback goes on headless.

use vstd::prelude::*;

use crate::machine::{MachineView, StateMachine};
use crate::types::{PlaybackState, TrackMetadata, VolumeLevel};

verus! {

/// A read-only snapshot of the machine, handed to the bridge for
/// reporting.
#[derive(Debug, PartialEq, Eq)]
pub struct Snapshot {
    pub state: PlaybackState,
    pub track: Option<TrackMetadata>,
    pub volume: VolumeLevel,
    /// The last position the machine knows, in seconds; zero when none is
    /// known.
    pub position: u32,
}

/// The snapshot a machine publishes.
pub open spec fn snapshot_view(m: MachineView) -> Snapshot {
    Snapshot {
        state: m.state,
        track: m.track,
        volume: m.volume,
        position: match m.last_position {
            Some(p) => p,
            None => 0,
        },
    }
}

/// Takes the machine's current snapshot.
pub fn snapshot_of(m: &StateMachine) -> (s: Snapshot)
    ensures
        s == snapshot_view(m@),
{
    Snapshot {
        state: m.state,
        track: match &m.track {
            Some(t) => Some(t.clone()),
            None => None,
        },
        volume: m.volume,
        position: match m.last_position {
            Some(p) => p,
            None => 0,
        },
    }
}

/// Whether two snapshots show the same track: both none, or the same
/// unique identifier.
pub open spec fn same_track(a: Option<TrackMetadata>, b: Option<TrackMetadata>) -> bool {
    match (a, b) {
        (Option::None, Option::None) => true,
        (Option::Some(x), Option::Some(y)) => x.id@ == y.id@,
        _ => false,
    }
}

/// One change notice emitted towards the control surface.
#[derive(Debug, PartialEq, Eq)]
pub enum Notice {
    State(PlaybackState),
    Volume(VolumeLevel),
    Track(Option<TrackMetadata>),
}

/// The notices a new snapshot provokes: one per property whose value
/// changed against the previously published snapshot.
pub open spec fn notices_view(prev: Snapshot, next: Snapshot) -> Seq<Notice> {
    (if next.state != prev.state {
        seq![Notice::State(next.state)]
    } else {
        Seq::<Notice>::empty()
    }) + (if next.volume != prev.volume {
        seq![Notice::Volume(next.volume)]
    } else {
        Seq::<Notice>::empty()
    }) + (if !same_track(prev.track, next.track) {
        seq![Notice::Track(next.track)]
    } else {
        Seq::<Notice>::empty()
    })
}

/// Why the bridge could not publish.
#[derive(Clone, Copy, PartialEq, Eq, Structural, Debug)]
pub enum BridgeFault {
    /// The underlying IPC connection is gone; the daemon continues
    /// headless and the bridge resumes when the transport is back.
    Disconnected,
}

/// The bridge's own state: the snapshot last shown on the surface, and
/// whether the transport is up.
pub struct ControlSurfaceBridge {
    pub last: Snapshot,
    pub connected: bool,
}

impl ControlSurfaceBridge {
    /// A bridge that has shown `initial` and whose transport is up.
    pub fn new(initial: Snapshot) -> (b: ControlSurfaceBridge)
        ensures
            b.last == initial,
            b.connected,
    {
        ControlSurfaceBridge { last: initial, connected: true }
    }

    /// Records the transport coming up or going away.
    pub fn set_connected(&mut self, up: bool)
        ensures
            final(self).connected == up,
            final(self).last == old(self).last,
    {
        self.connected = up;
    }

    /// Publishes a new snapshot.  With the transport up this succeeds,
    /// hands back exactly the notices the changed properties provoke, and
    /// remembers the snapshot; with the transport down it fails with
    /// `Disconnected` and remembers nothing, so the missed changes are
    /// published when the transport is back.
    pub fn publish(&mut self, next: Snapshot) -> (r: Result<Vec<Notice>, BridgeFault>)
        ensures
            old(self).connected <==> r is Ok,
            r matches Ok(ns) ==> {
                &&& ns@ == notices_view(old(self).last, next)
                &&& final(self).last == next
                &&& final(self).connected
            },
            r matches Err(f) ==> {
                &&& f == BridgeFault::Disconnected
                &&& *final(self) == *old(self)
            },
    {
        if !self.connected {
            return Err(BridgeFault::Disconnected);
        }
        let mut ns: Vec<Notice> = Vec::new();
        if self.last.state != next.state {
            ns.push(Notice::State(next.state));
        }
        if self.last.volume.0 != next.volume.0 {
            ns.push(Notice::Volume(next.volume));
        }
        let same = match (&self.last.track, &next.track) {
            (Option::None, Option::None) => true,
            (Option::Some(x), Option::Some(y)) => x.id == y.id,
            _ => false,
        };
        if !same {
            let copy = match &next.track {
                Some(t) => Some(t.clone()),
                None => None,
            };
            ns.push(Notice::Track(copy));
        }
        proof {
            assert(ns@ =~= notices_view(self.last, next));
        }
        self.last = next;
        Ok(ns)
    }

    /// The playback phase last published.
    pub fn state(&self) -> (s: PlaybackState)
        ensures
            s == self.last.state,
    {
        self.last.state
    }

    /// The volume last published.
    pub fn volume(&self) -> (v: VolumeLevel)
        ensures
            v == self.last.volume,
    {
        self.last.volume
    }

    /// The position last published, in seconds.
    pub fn position(&self) -> (p: u32)
        ensures
            p == self.last.position,
    {
        self.last.position
    }

    /// The track last published.
    pub fn track(&self) -> (t: Option<TrackMetadata>)
        ensures
            t == self.last.track,
    {
        match &self.last.track {
            Some(t) => Some(t.clone()),
            None => None,
        }
    }
}

} // verus!
