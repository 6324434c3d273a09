//! The playback state machine: the orchestration core.
//!
//! The machine consumes one event at a time from the merged stream and
//! computes its next state together with the side effects its surroundings
//! must apply.  The whole transition relation is written down as the spec
//! function [`step`]; [`StateMachine::handle`] implements it exactly.

use vstd::prelude::*;

use crate::types::{
    BackendEvent, Command, Direction, Effect, Event, PendingCommand, PlaybackState, RemoteEvent,
    TrackMetadata, VolumeLevel, VOLUME_FULL,
};

verus! {

/// The mathematical model of a [`StateMachine`].
pub ghost struct MachineView {
    pub state: PlaybackState,
    pub track: Option<TrackMetadata>,
    pub volume: VolumeLevel,
    pub last_position: Option<u32>,
    pub pending: Seq<PendingCommand>,
    pub resume_on_crash: bool,
}

/// True in the phases that own a live backend subprocess handle.
pub open spec fn needs_backend(s: PlaybackState) -> bool {
    s is Loading || s is Playing || s is Paused
}

/// Well-formedness of a machine: the invariant every reachable machine
/// satisfies.
///
/// - the volume never exceeds full scale;
/// - track metadata is held exactly in the phases that own a backend;
/// - commands are deferred only while a load is in flight;
/// - a remembered position always lies within the current track.
pub open spec fn wf(m: MachineView) -> bool {
    &&& m.volume.wf()
    &&& (m.track is Some <==> needs_backend(m.state))
    &&& (m.state !is Loading ==> m.pending.len() == 0)
    &&& (m.last_position matches Some(p) ==> (m.track matches Some(t) && p
        <= t.duration_secs))
}

/// The effective position of a seek request: clamped to the track end,
/// never rejected.
pub open spec fn clamp_seek(p: u32, t: TrackMetadata) -> u32 {
    if p > t.duration_secs {
        t.duration_secs
    } else {
        p
    }
}

/// The machine a daemon starts with: stopped, full volume, nothing queued.
pub open spec fn init_view(resume_on_crash: bool) -> MachineView {
    MachineView {
        state: PlaybackState::Stopped,
        track: None,
        volume: VolumeLevel(VOLUME_FULL),
        last_position: None,
        pending: Seq::empty(),
        resume_on_crash,
    }
}

/// Teardown on a stop request or the shutdown signal: from any phase that
/// owns a backend the machine enters `ShuttingDown`, asks for the backend
/// to be terminated and for the bridge to publish a cleared state; from the
/// remaining phases it is a no-op.
pub open spec fn stop_step(m: MachineView) -> (MachineView, Seq<Effect>) {
    if needs_backend(m.state) {
        (
            MachineView {
                state: PlaybackState::ShuttingDown,
                track: None,
                pending: Seq::empty(),
                last_position: None,
                ..m
            },
            seq![Effect::StopBackend, Effect::FlushBridge],
        )
    } else {
        (m, Seq::empty())
    }
}

/// The second half of a stop: once the teardown effects have been
/// applied, the machine comes to rest in `Stopped`.
pub open spec fn completed(m: MachineView) -> MachineView {
    MachineView { state: PlaybackState::Stopped, ..m }
}

/// A track selection from the remote session.  From `Stopped` it starts a
/// load and asks for a backend; while a backend is already owned it only
/// replaces the metadata, leaving the phase unchanged.
pub open spec fn track_changed_step(m: MachineView, t: TrackMetadata) -> (
    MachineView,
    Seq<Effect>,
) {
    match m.state {
        PlaybackState::Stopped => (
            MachineView {
                state: PlaybackState::Loading,
                track: Some(t),
                pending: Seq::empty(),
                last_position: None,
                ..m
            },
            seq![Effect::SpawnBackend],
        ),
        PlaybackState::Loading => (
            MachineView { track: Some(t), last_position: None, ..m },
            Seq::empty(),
        ),
        PlaybackState::Playing | PlaybackState::Paused => (
            MachineView { track: Some(t), last_position: None, ..m },
            Seq::empty(),
        ),
        PlaybackState::ShuttingDown => (m, Seq::empty()),
    }
}

/// A volume request from either source: clamped, stored, applied on the
/// backend when one is owned, and reported back to the remote session.
pub open spec fn set_volume_step(m: MachineView, v: u16) -> (MachineView, Seq<Effect>) {
    let lvl = VolumeLevel::clamp_spec(v);
    (
        MachineView { volume: lvl, ..m },
        if needs_backend(m.state) {
            seq![Effect::ForwardVolume(lvl), Effect::ReportVolume(lvl)]
        } else {
            seq![Effect::ReportVolume(lvl)]
        },
    )
}

/// A seek request: while playing or paused the clamped position is applied
/// and reported; during a load it is deferred; elsewhere it is ignored.
pub open spec fn seek_step(m: MachineView, p: u32) -> (MachineView, Seq<Effect>) {
    match m.state {
        PlaybackState::Playing | PlaybackState::Paused => match m.track {
            Some(t) => {
                let q = clamp_seek(p, t);
                (
                    MachineView { last_position: Some(q), ..m },
                    seq![Effect::ForwardSeek(q), Effect::ReportPosition(q)],
                )
            },
            None => (m, Seq::empty()),
        },
        PlaybackState::Loading => (
            MachineView { pending: m.pending.push(PendingCommand::Seek(p)), ..m },
            Seq::empty(),
        ),
        _ => (m, Seq::empty()),
    }
}

/// A next- or previous-track request: the current feed is abandoned and the
/// remote session asked for the neighbouring track; the machine loads until
/// the new track is ready.
pub open spec fn skip_step(m: MachineView, dir: Direction) -> (MachineView, Seq<Effect>) {
    match m.state {
        PlaybackState::Playing | PlaybackState::Paused => (
            MachineView {
                state: PlaybackState::Loading,
                pending: Seq::empty(),
                last_position: None,
                ..m
            },
            seq![Effect::TearDownFeed, Effect::RequestTrack(dir)],
        ),
        _ => (m, Seq::empty()),
    }
}

/// A transport command from the remote session or the bridge; both sources
/// share this one relation.
pub open spec fn command_step(m: MachineView, c: Command) -> (MachineView, Seq<Effect>) {
    match c {
        Command::Stop => stop_step(m),
        Command::SetVolume(v) => set_volume_step(m, v),
        Command::Seek(p) => seek_step(m, p),
        Command::Next => skip_step(m, Direction::Next),
        Command::Previous => skip_step(m, Direction::Previous),
        Command::Play => match m.state {
            PlaybackState::Paused => (
                MachineView { state: PlaybackState::Playing, ..m },
                seq![Effect::ResumeFeed],
            ),
            PlaybackState::Loading => (
                MachineView { pending: m.pending.push(PendingCommand::Play), ..m },
                Seq::empty(),
            ),
            _ => (m, Seq::empty()),
        },
        Command::Pause => match m.state {
            PlaybackState::Playing => (
                MachineView { state: PlaybackState::Paused, ..m },
                seq![Effect::SuspendFeed],
            ),
            PlaybackState::Loading => (
                MachineView { pending: m.pending.push(PendingCommand::Pause), ..m },
                Seq::empty(),
            ),
            _ => (m, Seq::empty()),
        },
    }
}

/// Replay of the commands deferred during a load, in arrival order, over
/// the phase the machine would otherwise enter.  Returns the phase and
/// remembered position after the replay together with the effects of the
/// deferred seeks.
pub open spec fn drain_fold(
    st: PlaybackState,
    pos: Option<u32>,
    t: TrackMetadata,
    pending: Seq<PendingCommand>,
) -> (PlaybackState, Option<u32>, Seq<Effect>)
    decreases pending.len(),
{
    if pending.len() == 0 {
        (st, pos, Seq::empty())
    } else {
        let head = match pending[0] {
            PendingCommand::Play => (PlaybackState::Playing, pos, Seq::<Effect>::empty()),
            PendingCommand::Pause => (PlaybackState::Paused, pos, Seq::<Effect>::empty()),
            PendingCommand::Seek(p) => {
                let q = clamp_seek(p, t);
                (st, Some(q), seq![Effect::ForwardSeek(q), Effect::ReportPosition(q)])
            },
        };
        let rest = drain_fold(head.0, head.1, t, pending.drop_first());
        (rest.0, rest.1, head.2 + rest.2)
    }
}

/// The backend reports ready: the deferred commands are consumed, and the
/// feed starts only when the machine actually ends up playing — a deferred
/// pause keeps any audio from ever being fed.
pub open spec fn ready_step(m: MachineView) -> (MachineView, Seq<Effect>) {
    match m.state {
        PlaybackState::Loading => match m.track {
            Some(t) => {
                let d = drain_fold(PlaybackState::Playing, m.last_position, t, m.pending);
                (
                    MachineView {
                        state: d.0,
                        pending: Seq::empty(),
                        last_position: d.1,
                        ..m
                    },
                    d.2 + if d.0 is Playing {
                        seq![Effect::StartFeed]
                    } else {
                        Seq::<Effect>::empty()
                    },
                )
            },
            None => (m, Seq::empty()),
        },
        _ => (m, Seq::empty()),
    }
}

/// The track could not be loaded: the machine falls back to `Stopped`, the
/// backend is released and the failure reported upstream.
pub open spec fn load_failed_step(m: MachineView) -> (MachineView, Seq<Effect>) {
    match m.state {
        PlaybackState::Loading => (
            MachineView {
                state: PlaybackState::Stopped,
                track: None,
                pending: Seq::empty(),
                last_position: None,
                ..m
            },
            seq![Effect::StopBackend, Effect::ReportError],
        ),
        _ => (m, Seq::empty()),
    }
}

/// The backend exited without being asked to: from any phase that owns a
/// backend the machine re-enters `Loading` and asks for a respawn, resuming
/// at the remembered position when that policy is configured; it never
/// falls silently to `Stopped`.
pub open spec fn exited_step(m: MachineView) -> (MachineView, Seq<Effect>) {
    match m.state {
        PlaybackState::Playing | PlaybackState::Paused | PlaybackState::Loading => (
            MachineView { state: PlaybackState::Loading, ..m },
            seq![Effect::RespawnBackend(crash_resume(m))],
        ),
        _ => (m, Seq::empty()),
    }
}

/// Where a respawned backend resumes: the remembered position under the
/// resume policy, otherwise the start of the track.
pub open spec fn crash_resume(m: MachineView) -> Option<u32> {
    if m.resume_on_crash {
        m.last_position
    } else {
        None
    }
}

/// Preservation of the machine invariant: one dispatch takes any
/// well-formed machine to a well-formed machine.
pub proof fn lemma_step_preserves_wf(m: MachineView, e: Event)
    requires
        wf(m),
    ensures
        wf(step(m, e).0),
{
    match e {
        Event::Backend(BackendEvent::Ready) => {
            if m.state is Loading {
                let t = m.track->Some_0;
                lemma_drain_fold_shape(PlaybackState::Playing, m.last_position, t, m.pending);
            }
        },
        _ => {},
    }
}

/// The replay of deferred commands ends in `Playing` or `Paused` and only
/// remembers positions that lie within the track.
pub proof fn lemma_drain_fold_shape(
    st: PlaybackState,
    pos: Option<u32>,
    t: TrackMetadata,
    pending: Seq<PendingCommand>,
)
    requires
        st is Playing || st is Paused,
        pos matches Some(p) ==> p <= t.duration_secs,
    ensures
        drain_fold(st, pos, t, pending).0 is Playing || drain_fold(st, pos, t, pending).0
            is Paused,
        drain_fold(st, pos, t, pending).1 matches Some(p) ==> p <= t.duration_secs,
    decreases pending.len(),
{
    if pending.len() > 0 {
        match pending[0] {
            PendingCommand::Play => {
                lemma_drain_fold_shape(PlaybackState::Playing, pos, t, pending.drop_first());
            },
            PendingCommand::Pause => {
                lemma_drain_fold_shape(PlaybackState::Paused, pos, t, pending.drop_first());
            },
            PendingCommand::Seek(p) => {
                lemma_drain_fold_shape(st, Some(clamp_seek(p, t)), t, pending.drop_first());
            },
        }
    }
}

/// The whole transition relation: one event in, the next machine and its
/// side effects out.  Deterministic in the machine and the event.
pub open spec fn step(m: MachineView, e: Event) -> (MachineView, Seq<Effect>) {
    match e {
        Event::Shutdown => stop_step(m),
        Event::Remote(re) => match re {
            RemoteEvent::TrackChanged(t) => track_changed_step(m, t),
            RemoteEvent::Command(c) => command_step(m, c),
            RemoteEvent::AuthExpired | RemoteEvent::Disconnected => (
                m,
                seq![Effect::AttemptReconnect],
            ),
        },
        Event::Backend(be) => match be {
            BackendEvent::Ready => ready_step(m),
            BackendEvent::LoadFailed => load_failed_step(m),
            BackendEvent::Exited => exited_step(m),
        },
        Event::Bridge(c) => command_step(m, c),
    }
}

/// The orchestration core's owned state.  All mutation of playback state
/// and volume happens through [`StateMachine::handle`]; every other
/// component only reads snapshots or submits events.
pub struct StateMachine {
    pub state: PlaybackState,
    pub track: Option<TrackMetadata>,
    pub volume: VolumeLevel,
    pub last_position: Option<u32>,
    pub pending: Vec<PendingCommand>,
    pub resume_on_crash: bool,
}

impl View for StateMachine {
    type V = MachineView;

    open spec fn view(&self) -> MachineView {
        MachineView {
            state: self.state,
            track: self.track,
            volume: self.volume,
            last_position: self.last_position,
            pending: self.pending@,
            resume_on_crash: self.resume_on_crash,
        }
    }
}

impl StateMachine {
    /// Builds the machine a daemon starts with.  The resume flag decides
    /// whether a respawned backend resumes at the remembered position or
    /// restarts the track.
    pub fn new(resume_on_crash: bool) -> (m: StateMachine)
        ensures
            m@ == init_view(resume_on_crash),
            wf(m@),
    {
        let m = StateMachine {
            state: PlaybackState::Stopped,
            track: None,
            volume: VolumeLevel(VOLUME_FULL),
            last_position: None,
            pending: Vec::new(),
            resume_on_crash,
        };
        proof {
            assert(m@ =~= init_view(resume_on_crash));
        }
        m
    }

    /// Dispatches one event of the merged stream: the machine moves to
    /// exactly the state [`step`] gives and hands back exactly the effects
    /// [`step`] gives, to be applied by the caller in order.
    pub fn handle(&mut self, ev: &Event) -> (effects: Vec<Effect>)
        requires
            wf(old(self)@),
        ensures
            final(self)@ == step(old(self)@, *ev).0,
            effects@ == step(old(self)@, *ev).1,
            wf(final(self)@),
    {
        let effects = match ev {
            Event::Shutdown => self.on_stop(),
            Event::Remote(RemoteEvent::TrackChanged(t)) => self.on_track_changed(t),
            Event::Remote(RemoteEvent::Command(c)) => self.on_command(*c),
            Event::Remote(RemoteEvent::AuthExpired) | Event::Remote(
                RemoteEvent::Disconnected,
            ) => {
                let mut effs: Vec<Effect> = Vec::new();
                effs.push(Effect::AttemptReconnect);
                proof {
                    assert(effs@ =~= seq![Effect::AttemptReconnect]);
                }
                effs
            },
            Event::Backend(BackendEvent::Ready) => self.on_ready(),
            Event::Backend(BackendEvent::LoadFailed) => self.on_load_failed(),
            Event::Backend(BackendEvent::Exited) => self.on_exited(),
            Event::Bridge(c) => self.on_command(*c),
        };
        proof {
            lemma_step_preserves_wf(old(self)@, *ev);
        }
        effects
    }

    /// The second half of a stop: after the teardown effects have
    /// been applied the caller completes the shutdown and the machine
    /// comes to rest in `Stopped`.
    pub fn complete_shutdown(&mut self)
        requires
            old(self)@.state is ShuttingDown,
        ensures
            final(self)@ == completed(old(self)@),
    {
        self.state = PlaybackState::Stopped;
        proof {
            assert(self@ =~= completed(old(self)@));
        }
    }

    fn on_stop(&mut self) -> (effects: Vec<Effect>)
        ensures
            final(self)@ == stop_step(old(self)@).0,
            effects@ == stop_step(old(self)@).1,
    {
        let mut effs: Vec<Effect> = Vec::new();
        match self.state {
            PlaybackState::Loading | PlaybackState::Playing | PlaybackState::Paused => {
                self.state = PlaybackState::ShuttingDown;
                self.track = None;
                self.pending.clear();
                self.last_position = None;
                effs.push(Effect::StopBackend);
                effs.push(Effect::FlushBridge);
                proof {
                    assert(self@ =~= stop_step(old(self)@).0);
                    assert(effs@ =~= stop_step(old(self)@).1);
                }
            },
            _ => {
                proof {
                    assert(effs@ =~= stop_step(old(self)@).1);
                }
            },
        }
        effs
    }

    fn on_track_changed(&mut self, t: &TrackMetadata) -> (effects: Vec<Effect>)
        ensures
            final(self)@ == track_changed_step(old(self)@, *t).0,
            effects@ == track_changed_step(old(self)@, *t).1,
    {
        let mut effs: Vec<Effect> = Vec::new();
        match self.state {
            PlaybackState::Stopped => {
                self.state = PlaybackState::Loading;
                self.track = Some(t.clone());
                self.pending.clear();
                self.last_position = None;
                effs.push(Effect::SpawnBackend);
                proof {
                    assert(self@ =~= track_changed_step(old(self)@, *t).0);
                    assert(effs@ =~= track_changed_step(old(self)@, *t).1);
                }
            },
            PlaybackState::Loading | PlaybackState::Playing | PlaybackState::Paused => {
                self.track = Some(t.clone());
                self.last_position = None;
                proof {
                    assert(self@ =~= track_changed_step(old(self)@, *t).0);
                    assert(effs@ =~= track_changed_step(old(self)@, *t).1);
                }
            },
            PlaybackState::ShuttingDown => {
                proof {
                    assert(effs@ =~= track_changed_step(old(self)@, *t).1);
                }
            },
        }
        effs
    }

    fn on_command(&mut self, c: Command) -> (effects: Vec<Effect>)
        ensures
            final(self)@ == command_step(old(self)@, c).0,
            effects@ == command_step(old(self)@, c).1,
    {
        match c {
            Command::Stop => self.on_stop(),
            Command::SetVolume(v) => self.on_set_volume(v),
            Command::Seek(p) => self.on_seek(p),
            Command::Next => self.on_skip(Direction::Next),
            Command::Previous => self.on_skip(Direction::Previous),
            Command::Play => {
                let mut effs: Vec<Effect> = Vec::new();
                match self.state {
                    PlaybackState::Paused => {
                        self.state = PlaybackState::Playing;
                        effs.push(Effect::ResumeFeed);
                    },
                    PlaybackState::Loading => {
                        self.pending.push(PendingCommand::Play);
                    },
                    _ => {},
                }
                proof {
                    assert(self@ =~= command_step(old(self)@, c).0);
                    assert(effs@ =~= command_step(old(self)@, c).1);
                }
                effs
            },
            Command::Pause => {
                let mut effs: Vec<Effect> = Vec::new();
                match self.state {
                    PlaybackState::Playing => {
                        self.state = PlaybackState::Paused;
                        effs.push(Effect::SuspendFeed);
                    },
                    PlaybackState::Loading => {
                        self.pending.push(PendingCommand::Pause);
                    },
                    _ => {},
                }
                proof {
                    assert(self@ =~= command_step(old(self)@, c).0);
                    assert(effs@ =~= command_step(old(self)@, c).1);
                }
                effs
            },
        }
    }

    fn on_set_volume(&mut self, v: u16) -> (effects: Vec<Effect>)
        ensures
            final(self)@ == set_volume_step(old(self)@, v).0,
            effects@ == set_volume_step(old(self)@, v).1,
    {
        let lvl = VolumeLevel::clamped(v);
        self.volume = lvl;
        let mut effs: Vec<Effect> = Vec::new();
        match self.state {
            PlaybackState::Loading | PlaybackState::Playing | PlaybackState::Paused => {
                effs.push(Effect::ForwardVolume(lvl));
                effs.push(Effect::ReportVolume(lvl));
            },
            _ => {
                effs.push(Effect::ReportVolume(lvl));
            },
        }
        proof {
            assert(self@ =~= set_volume_step(old(self)@, v).0);
            assert(effs@ =~= set_volume_step(old(self)@, v).1);
        }
        effs
    }

    fn on_seek(&mut self, p: u32) -> (effects: Vec<Effect>)
        ensures
            final(self)@ == seek_step(old(self)@, p).0,
            effects@ == seek_step(old(self)@, p).1,
    {
        let mut effs: Vec<Effect> = Vec::new();
        match self.state {
            PlaybackState::Playing | PlaybackState::Paused => {
                let duration = match &self.track {
                    Some(t) => t.duration_secs,
                    None => {
                        proof {
                            assert(effs@ =~= seek_step(old(self)@, p).1);
                        }
                        return effs;
                    },
                };
                let q = if p > duration {
                    duration
                } else {
                    p
                };
                self.last_position = Some(q);
                effs.push(Effect::ForwardSeek(q));
                effs.push(Effect::ReportPosition(q));
                proof {
                    assert(self@ =~= seek_step(old(self)@, p).0);
                    assert(effs@ =~= seek_step(old(self)@, p).1);
                }
            },
            PlaybackState::Loading => {
                self.pending.push(PendingCommand::Seek(p));
                proof {
                    assert(self@ =~= seek_step(old(self)@, p).0);
                    assert(effs@ =~= seek_step(old(self)@, p).1);
                }
            },
            _ => {
                proof {
                    assert(effs@ =~= seek_step(old(self)@, p).1);
                }
            },
        }
        effs
    }

    fn on_skip(&mut self, dir: Direction) -> (effects: Vec<Effect>)
        ensures
            final(self)@ == skip_step(old(self)@, dir).0,
            effects@ == skip_step(old(self)@, dir).1,
    {
        let mut effs: Vec<Effect> = Vec::new();
        match self.state {
            PlaybackState::Playing | PlaybackState::Paused => {
                self.state = PlaybackState::Loading;
                self.pending.clear();
                self.last_position = None;
                effs.push(Effect::TearDownFeed);
                effs.push(Effect::RequestTrack(dir));
                proof {
                    assert(self@ =~= skip_step(old(self)@, dir).0);
                    assert(effs@ =~= skip_step(old(self)@, dir).1);
                }
            },
            _ => {
                proof {
                    assert(effs@ =~= skip_step(old(self)@, dir).1);
                }
            },
        }
        effs
    }

    fn on_load_failed(&mut self) -> (effects: Vec<Effect>)
        ensures
            final(self)@ == load_failed_step(old(self)@).0,
            effects@ == load_failed_step(old(self)@).1,
    {
        let mut effs: Vec<Effect> = Vec::new();
        match self.state {
            PlaybackState::Loading => {
                self.state = PlaybackState::Stopped;
                self.track = None;
                self.pending.clear();
                self.last_position = None;
                effs.push(Effect::StopBackend);
                effs.push(Effect::ReportError);
                proof {
                    assert(self@ =~= load_failed_step(old(self)@).0);
                    assert(effs@ =~= load_failed_step(old(self)@).1);
                }
            },
            _ => {
                proof {
                    assert(effs@ =~= load_failed_step(old(self)@).1);
                }
            },
        }
        effs
    }

    fn on_exited(&mut self) -> (effects: Vec<Effect>)
        ensures
            final(self)@ == exited_step(old(self)@).0,
            effects@ == exited_step(old(self)@).1,
    {
        let mut effs: Vec<Effect> = Vec::new();
        match self.state {
            PlaybackState::Playing | PlaybackState::Paused | PlaybackState::Loading => {
                self.state = PlaybackState::Loading;
                let resume = if self.resume_on_crash {
                    self.last_position
                } else {
                    None
                };
                effs.push(Effect::RespawnBackend(resume));
                proof {
                    assert(self@ =~= exited_step(old(self)@).0);
                    assert(effs@ =~= exited_step(old(self)@).1);
                }
            },
            _ => {
                proof {
                    assert(effs@ =~= exited_step(old(self)@).1);
                }
            },
        }
        effs
    }

    fn on_ready(&mut self) -> (effects: Vec<Effect>)
        ensures
            final(self)@ == ready_step(old(self)@).0,
            effects@ == ready_step(old(self)@).1,
    {
        let mut effs: Vec<Effect> = Vec::new();
        match self.state {
            PlaybackState::Loading => {},
            _ => {
                proof {
                    assert(effs@ =~= ready_step(old(self)@).1);
                }
                return effs;
            },
        }
        let duration = match &self.track {
            Some(t) => t.duration_secs,
            None => {
                proof {
                    assert(effs@ =~= ready_step(old(self)@).1);
                }
                return effs;
            },
        };
        let ghost m0 = self@;
        let ghost t0 = m0.track->Some_0;
        let ghost d = drain_fold(PlaybackState::Playing, m0.last_position, t0, m0.pending);
        let mut st = PlaybackState::Playing;
        let mut pos = self.last_position;
        let mut i: usize = 0;
        proof {
            assert(m0.pending.skip(0) =~= m0.pending);
            assert(d.2 =~= effs@ + d.2);
        }
        while i < self.pending.len()
            invariant
                self@ == m0,
                m0.state is Loading,
                m0.track is Some,
                t0 == m0.track->Some_0,
                duration == t0.duration_secs,
                0 <= i <= m0.pending.len(),
                d == drain_fold(PlaybackState::Playing, m0.last_position, t0, m0.pending),
                ({
                    let r = drain_fold(st, pos, t0, m0.pending.skip(i as int));
                    d.0 == r.0 && d.1 == r.1 && d.2 == effs@ + r.2
                }),
            decreases m0.pending.len() - i,
        {
            let ghost effs_before = effs@;
            let ghost rem = m0.pending.skip(i as int);
            let c = self.pending[i];
            match c {
                PendingCommand::Play => {
                    st = PlaybackState::Playing;
                },
                PendingCommand::Pause => {
                    st = PlaybackState::Paused;
                },
                PendingCommand::Seek(p) => {
                    let q = if p > duration {
                        duration
                    } else {
                        p
                    };
                    pos = Some(q);
                    effs.push(Effect::ForwardSeek(q));
                    effs.push(Effect::ReportPosition(q));
                },
            }
            i += 1;
            proof {
                assert(rem[0] == m0.pending[i - 1]);
                assert(rem.drop_first() =~= m0.pending.skip(i as int));
                match c {
                    PendingCommand::Play | PendingCommand::Pause => {
                        assert(effs@ == effs_before + Seq::<Effect>::empty());
                    },
                    PendingCommand::Seek(p) => {
                        let q = clamp_seek(p, t0);
                        assert(effs@ =~= effs_before + seq![
                            Effect::ForwardSeek(q),
                            Effect::ReportPosition(q),
                        ]);
                    },
                }
                let r_new = drain_fold(st, pos, t0, m0.pending.skip(i as int));
                assert(d.2 =~= effs@ + r_new.2);
            }
        }
        proof {
            assert(m0.pending.skip(i as int) =~= Seq::<PendingCommand>::empty());
            assert(d.0 == st && d.1 == pos && d.2 =~= effs@);
        }
        self.state = st;
        self.last_position = pos;
        self.pending.clear();
        if st == PlaybackState::Playing {
            effs.push(Effect::StartFeed);
            proof {
                assert(effs@ =~= ready_step(m0).1);
            }
        } else {
            proof {
                assert(effs@ =~= ready_step(m0).1);
            }
        }
        proof {
            assert(self@ =~= ready_step(m0).0);
        }
        effs
    }
}

} // verus!
