//! Data carried between the event sources, the state machine and the
//! components that apply its side effects.

use vstd::prelude::*;

verus! {

/// Volume full scale: a [`VolumeLevel`] of this many units means 1.0,
/// zero units means 0.0.
pub const VOLUME_FULL: u16 = 10000;

/// The playback phase of the daemon.  Exactly one phase is active at a
/// time; transitions happen only through the state machine.
///
/// `ShuttingDown` is the teardown phase between observing a stop request
/// and reaching `Stopped`: the machine rests there only until the teardown
/// effects have been applied and `complete_shutdown` is called.
#[derive(Clone, Copy, PartialEq, Eq, Structural, Debug)]
pub enum PlaybackState {
    Stopped,
    Loading,
    Playing,
    Paused,
    ShuttingDown,
}

/// A normalized volume as a fixed-point fraction of [`VOLUME_FULL`].
#[derive(Clone, Copy, PartialEq, Eq, Structural, Debug)]
pub struct VolumeLevel(pub u16);

impl VolumeLevel {
    /// A level is well formed when it does not exceed full scale.
    pub open spec fn wf(self) -> bool {
        self.0 <= VOLUME_FULL
    }

    /// What any raw request becomes: clamped to full scale, never rejected.
    pub open spec fn clamp_spec(raw: u16) -> VolumeLevel {
        if raw > VOLUME_FULL {
            VolumeLevel(VOLUME_FULL)
        } else {
            VolumeLevel(raw)
        }
    }

    /// Builds a well-formed level from a raw request by clamping.
    pub fn clamped(raw: u16) -> (r: VolumeLevel)
        ensures
            r == VolumeLevel::clamp_spec(raw),
            r.wf(),
    {
        if raw > VOLUME_FULL {
            VolumeLevel(VOLUME_FULL)
        } else {
            VolumeLevel(raw)
        }
    }
}

/// Description of the current track, handed over by the remote session on
/// a track change and immutable afterwards.
#[derive(Debug, PartialEq, Eq)]
pub struct TrackMetadata {
    pub title: String,
    pub artist: String,
    pub album: String,
    /// Track length in seconds; seek positions are clamped to it.
    pub duration_secs: u32,
    /// Unique identifier; two snapshots show the same track exactly when
    /// the identifiers agree.
    pub id: String,
}

impl Clone for TrackMetadata {
    fn clone(&self) -> (r: Self)
        ensures
            r == *self,
    {
        TrackMetadata {
            title: self.title.clone(),
            artist: self.artist.clone(),
            album: self.album.clone(),
            duration_secs: self.duration_secs,
            id: self.id.clone(),
        }
    }
}

/// A transport command, as issued by the remote session or by the
/// control-surface bridge.  Both sources share one command vocabulary and
/// the state machine treats them alike.
#[derive(Clone, Copy, PartialEq, Eq, Structural, Debug)]
pub enum Command {
    Play,
    Pause,
    Next,
    Previous,
    /// Seek to a position in seconds; positions beyond the track end are
    /// clamped, never rejected.
    Seek(u32),
    /// Set the volume in units of [`VOLUME_FULL`]; values above full scale
    /// are clamped.
    SetVolume(u16),
    Stop,
}

/// A command that arrived while a track load was in flight.  It is queued
/// rather than dropped and consumed exactly once, when the backend reports
/// ready.
#[derive(Clone, Copy, PartialEq, Eq, Structural, Debug)]
pub enum PendingCommand {
    Play,
    Pause,
    Seek(u32),
}

/// An event produced by the remote session.
#[derive(Debug)]
pub enum RemoteEvent {
    /// A track was selected or advanced; carries its metadata.  From
    /// `Stopped` this starts a load, elsewhere it replaces the current
    /// metadata.
    TrackChanged(TrackMetadata),
    /// A transport command issued on the remote side.
    Command(Command),
    /// The session's credentials expired; reconnection is delegated.
    AuthExpired,
    /// The session connection dropped; reconnection is delegated.
    Disconnected,
}

/// An event produced by the backend process supervisor.
#[derive(Clone, Copy, PartialEq, Eq, Structural, Debug)]
pub enum BackendEvent {
    /// The audio subprocess accepted the track and can be fed.
    Ready,
    /// The track could not be loaded.
    LoadFailed,
    /// The subprocess exited without being asked to.
    Exited,
}

/// One event of the merged stream, tagged with its source.
#[derive(Debug)]
pub enum Event {
    Remote(RemoteEvent),
    Backend(BackendEvent),
    /// A method invocation of the control surface, already translated to a
    /// command by the bridge.
    Bridge(Command),
    /// The daemon-wide shutdown signal; the multiplexer dispatches no
    /// further event after it.
    Shutdown,
}

/// Which neighbouring track to ask the remote session for.
#[derive(Clone, Copy, PartialEq, Eq, Structural, Debug)]
pub enum Direction {
    Next,
    Previous,
}

/// A side effect the state machine asks its surroundings to apply.  Effects
/// are applied after the transition is computed, in the order given, never
/// interleaved with dispatching another event.
#[derive(Clone, Copy, PartialEq, Eq, Structural, Debug)]
pub enum Effect {
    /// Start the audio subprocess for a fresh load.
    SpawnBackend,
    /// Start the subprocess again after an unexpected exit; resume at the
    /// given position, or restart the track when `None`.
    RespawnBackend(Option<u32>),
    /// Terminate the subprocess and wait for it to die.
    StopBackend,
    /// Begin feeding decoded audio to the subprocess.
    StartFeed,
    /// Suspend the feed without tearing anything down.
    SuspendFeed,
    /// Resume a suspended feed.
    ResumeFeed,
    /// Abandon the current feed before loading another track.
    TearDownFeed,
    /// Ask the remote session for the neighbouring track.
    RequestTrack(Direction),
    /// Seek the backend to the given position in seconds (already clamped).
    ForwardSeek(u32),
    /// Report the effective position back to the remote session.
    ReportPosition(u32),
    /// Apply the given volume on the backend.
    ForwardVolume(VolumeLevel),
    /// Report the effective volume back to the remote session.
    ReportVolume(VolumeLevel),
    /// Tell the remote session to run its own reconnection policy.
    AttemptReconnect,
    /// Surface a load failure upstream.
    ReportError,
    /// Push a cleared state to the control surface during teardown.
    FlushBridge,
}

} // verus!
