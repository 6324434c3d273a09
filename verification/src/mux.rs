//! The event multiplexer: one ordered stream out of three sources.
//!
//! Remote-session events, backend notifications and bridge commands are
//! merged into a single queue in arrival order — first ready, first
//! served, so no source can starve another — and dispatched to the state
//! machine one at a time, never concurrently.  Dispatching an event also
//! keeps the supervisor's ledger in step with the effects the machine
//! asks for, and stops for good once the shutdown signal has been
//! dispatched: no event is dispatched after it.

use vstd::prelude::*;

use crate::machine::{
    clamp_seek, command_step, completed, drain_fold, needs_backend, step, stop_step, wf,
    MachineView, StateMachine,
};
use crate::supervisor::{sup_wf, Supervisor};
use crate::types::{BackendEvent, Command, Effect, Event, PendingCommand, PlaybackState,
    RemoteEvent, TrackMetadata};

verus! {

/// The supervisor's ledger agrees with the machine: a handle is live
/// exactly in the phases that own a backend.
pub open spec fn linked(s: Supervisor, m: MachineView) -> bool {
    (s.handle is Some) <==> needs_backend(m.state)
}

/// Whether an effect leaves the set of live handles untouched.  Only
/// spawning, respawning and stopping the backend change the ledger.
pub open spec fn keeps_handle(e: Effect) -> bool {
    !(e is SpawnBackend || e is RespawnBackend || e is StopBackend)
}

/// What one effect does to handle-liveness.  `None` means the effect is
/// inadmissible from that liveness: it would spawn a second subprocess,
/// or stop or feed one that does not exist.
pub open spec fn eff_live(live: bool, e: Effect) -> Option<bool> {
    match e {
        Effect::SpawnBackend | Effect::RespawnBackend(_) => if live {
            None
        } else {
            Some(true)
        },
        Effect::StopBackend => if live {
            Some(false)
        } else {
            None
        },
        Effect::StartFeed | Effect::SuspendFeed | Effect::ResumeFeed | Effect::TearDownFeed
            | Effect::ForwardSeek(_) | Effect::ForwardVolume(_) => if live {
            Some(true)
        } else {
            None
        },
        _ => Some(live),
    }
}

/// Folds an effect sequence over handle-liveness; `None` as soon as one
/// effect is inadmissible.  The machine never emits an inadmissible
/// sequence.
pub open spec fn live_through(live: bool, effs: Seq<Effect>) -> Option<bool>
    decreases effs.len(),
{
    if effs.len() == 0 {
        Some(live)
    } else {
        match eff_live(live, effs[0]) {
            Some(l) => live_through(l, effs.drop_first()),
            None => None,
        }
    }
}

proof fn lemma_live_through_one(live: bool, a: Effect)
    ensures
        live_through(live, seq![a]) == eff_live(live, a),
{
    assert(seq![a].len() == 1);
    assert(seq![a][0] == a);
    assert(seq![a].drop_first() =~= Seq::<Effect>::empty());
    assert(live_through(live, seq![a]) == (match eff_live(live, a) {
        Some(l) => live_through(l, Seq::<Effect>::empty()),
        None => None,
    }));
}

proof fn lemma_live_through_two(live: bool, a: Effect, b: Effect)
    ensures
        live_through(live, seq![a, b]) == (match eff_live(live, a) {
            Some(l) => eff_live(l, b),
            None => None,
        }),
{
    assert(seq![a, b].drop_first() =~= seq![b]);
    match eff_live(live, a) {
        Some(l) => lemma_live_through_one(l, b),
        None => {},
    }
}

proof fn lemma_live_through_neutral(effs: Seq<Effect>, tail: Seq<Effect>)
    requires
        forall|j: int| 0 <= j < effs.len() ==> keeps_handle(#[trigger] effs[j]),
    ensures
        live_through(true, effs + tail) == live_through(true, tail),
    decreases effs.len(),
{
    if effs.len() == 0 {
        assert(effs + tail =~= tail);
    } else {
        assert((effs + tail)[0] == effs[0]);
        assert((effs + tail).drop_first() =~= effs.drop_first() + tail);
        lemma_live_through_neutral(effs.drop_first(), tail);
    }
}

proof fn lemma_drain_fold_keeps_handle(
    st: PlaybackState,
    pos: Option<u32>,
    t: TrackMetadata,
    pending: Seq<PendingCommand>,
)
    ensures
        forall|j: int|
            0 <= j < drain_fold(st, pos, t, pending).2.len() ==> keeps_handle(
                #[trigger] drain_fold(st, pos, t, pending).2[j],
            ),
    decreases pending.len(),
{
    if pending.len() > 0 {
        let head: (PlaybackState, Option<u32>, Seq<Effect>) = match pending[0] {
            PendingCommand::Play => (PlaybackState::Playing, pos, Seq::<Effect>::empty()),
            PendingCommand::Pause => (PlaybackState::Paused, pos, Seq::<Effect>::empty()),
            PendingCommand::Seek(p) => {
                let q = clamp_seek(p, t);
                (st, Some(q), seq![Effect::ForwardSeek(q), Effect::ReportPosition(q)])
            },
        };
        lemma_drain_fold_keeps_handle(head.0, head.1, t, pending.drop_first());
        let rest = drain_fold(head.0, head.1, t, pending.drop_first());
        assert(drain_fold(st, pos, t, pending).2 == head.2 + rest.2);
        assert forall|j: int|
            0 <= j < drain_fold(st, pos, t, pending).2.len() implies keeps_handle(
            #[trigger] drain_fold(st, pos, t, pending).2[j],
        ) by {
            if j < head.2.len() {
                assert((head.2 + rest.2)[j] == head.2[j]);
            } else {
                assert((head.2 + rest.2)[j] == rest.2[j - head.2.len()]);
            }
        }
    }
}

/// The effects of one dispatch are admissible from the liveness the
/// ledger holds when they are applied — `false` right after an exit
/// notification, the linked liveness otherwise — and applying them leaves
/// a handle live exactly when the next machine phase owns a backend.
pub proof fn lemma_step_liveness(m: MachineView, e: Event)
    requires
        wf(m),
    ensures
        ({
            let live0 = if e matches Event::Backend(BackendEvent::Exited) {
                false
            } else {
                needs_backend(m.state)
            };
            live_through(live0, step(m, e).1) == Some(needs_backend(step(m, e).0.state))
        }),
{
    let live0 = if e matches Event::Backend(BackendEvent::Exited) {
        false
    } else {
        needs_backend(m.state)
    };
    match e {
        Event::Shutdown => lemma_live_stop(m),
        Event::Remote(RemoteEvent::TrackChanged(_)) => {
            if m.state is Stopped {
                lemma_live_through_one(false, Effect::SpawnBackend);
            }
        },
        Event::Remote(RemoteEvent::Command(c)) => lemma_live_command(m, c),
        Event::Bridge(c) => lemma_live_command(m, c),
        Event::Remote(RemoteEvent::AuthExpired) | Event::Remote(RemoteEvent::Disconnected) => {
            lemma_live_through_one(live0, Effect::AttemptReconnect);
        },
        Event::Backend(BackendEvent::Ready) => {
            if m.state is Loading {
                let t = m.track->Some_0;
                let d = drain_fold(PlaybackState::Playing, m.last_position, t, m.pending);
                crate::machine::lemma_drain_fold_shape(PlaybackState::Playing, m.last_position,
                    t, m.pending);
                lemma_drain_fold_keeps_handle(PlaybackState::Playing, m.last_position, t,
                    m.pending);
                if d.0 is Playing {
                    lemma_live_through_neutral(d.2, seq![Effect::StartFeed]);
                    lemma_live_through_one(true, Effect::StartFeed);
                } else {
                    lemma_live_through_neutral(d.2, Seq::<Effect>::empty());
                    assert(d.2 + Seq::<Effect>::empty() =~= d.2);
                }
            }
        },
        Event::Backend(BackendEvent::LoadFailed) => {
            if m.state is Loading {
                lemma_live_through_two(true, Effect::StopBackend, Effect::ReportError);
            }
        },
        Event::Backend(BackendEvent::Exited) => {
            if needs_backend(m.state) {
                lemma_live_through_one(false, Effect::RespawnBackend(crate::machine::crash_resume(m)));
            }
        },
    }
}

/// Liveness of the teardown effects of a stop.
proof fn lemma_live_stop(m: MachineView)
    ensures
        live_through(needs_backend(m.state), stop_step(m).1) == Some(
            needs_backend(stop_step(m).0.state),
        ),
{
    if needs_backend(m.state) {
        lemma_live_through_two(true, Effect::StopBackend, Effect::FlushBridge);
    }
}

/// Liveness of the effects of one transport command.
proof fn lemma_live_command(m: MachineView, c: Command)
    requires
        wf(m),
    ensures
        live_through(needs_backend(m.state), command_step(m, c).1) == Some(
            needs_backend(command_step(m, c).0.state),
        ),
{
    let live0 = needs_backend(m.state);
    match c {
        Command::Stop => lemma_live_stop(m),
        Command::SetVolume(v) => {
            let lvl = crate::types::VolumeLevel::clamp_spec(v);
            if live0 {
                lemma_live_through_two(true, Effect::ForwardVolume(lvl),
                    Effect::ReportVolume(lvl));
            } else {
                lemma_live_through_one(false, Effect::ReportVolume(lvl));
            }
        },
        Command::Seek(p) => {
            if m.state is Playing || m.state is Paused {
                let q = clamp_seek(p, m.track->Some_0);
                lemma_live_through_two(true, Effect::ForwardSeek(q), Effect::ReportPosition(q));
            }
        },
        Command::Next => {
            if m.state is Playing || m.state is Paused {
                lemma_live_through_two(true, Effect::TearDownFeed,
                    Effect::RequestTrack(crate::types::Direction::Next));
            }
        },
        Command::Previous => {
            if m.state is Playing || m.state is Paused {
                lemma_live_through_two(true, Effect::TearDownFeed,
                    Effect::RequestTrack(crate::types::Direction::Previous));
            }
        },
        Command::Play => {
            if m.state is Paused {
                lemma_live_through_one(true, Effect::ResumeFeed);
            }
        },
        Command::Pause => {
            if m.state is Playing {
                lemma_live_through_one(true, Effect::SuspendFeed);
            }
        },
    }
}

/// One full dispatch as the multiplexer performs it: the transition, and —
/// when the event tore the machine down — completion of the shutdown once
/// the teardown effects are applied.
pub open spec fn dispatch_view(m: MachineView, e: Event) -> MachineView {
    let m1 = step(m, e).0;
    if m1.state is ShuttingDown {
        completed(m1)
    } else {
        m1
    }
}

/// The machine after the multiplexer has worked through a queue: events
/// dispatched in order, none after the shutdown signal.
pub open spec fn drive_machine(m: MachineView, evs: Seq<Event>) -> MachineView
    decreases evs.len(),
{
    if evs.len() == 0 {
        m
    } else {
        let m1 = dispatch_view(m, evs[0]);
        if evs[0] is Shutdown {
            m1
        } else {
            drive_machine(m1, evs.drop_first())
        }
    }
}

/// How many events of a queue the multiplexer dispatches: everything up
/// to and including the first shutdown signal, or the whole queue.
pub open spec fn drive_count(evs: Seq<Event>) -> int
    decreases evs.len(),
{
    if evs.len() == 0 {
        0
    } else if evs[0] is Shutdown {
        1
    } else {
        1 + drive_count(evs.drop_first())
    }
}

/// The effects of working through a queue, concatenated in dispatch
/// order.
pub open spec fn drive_effects(m: MachineView, evs: Seq<Event>) -> Seq<Effect>
    decreases evs.len(),
{
    if evs.len() == 0 {
        Seq::empty()
    } else {
        step(m, evs[0]).1 + if evs[0] is Shutdown {
            Seq::empty()
        } else {
            drive_effects(dispatch_view(m, evs[0]), evs.drop_first())
        }
    }
}

/// Brings the supervisor's ledger in step with one dispatch's effects,
/// applied in order: spawns and respawns are recorded, a stop request is
/// recorded as killing the subprocess, everything else leaves the ledger
/// alone.
fn apply_to_ledger(sup: &mut Supervisor, effs: &Vec<Effect>)
    requires
        sup_wf(*old(sup)),
        live_through((old(sup).handle is Some), effs@) is Some,
    ensures
        sup_wf(*final(sup)),
        (final(sup).handle is Some) == live_through((old(sup).handle is Some), effs@)->Some_0,
{
    let ghost target = live_through((old(sup).handle is Some), effs@);
    let mut i: usize = 0;
    proof {
        assert(effs@.skip(0) =~= effs@);
    }
    while i < effs.len()
        invariant
            sup_wf(*sup),
            0 <= i <= effs@.len(),
            target is Some,
            live_through((sup.handle is Some), effs@.skip(i as int)) == target,
        decreases effs@.len() - i,
    {
        let ghost rem = effs@.skip(i as int);
        proof {
            assert(rem[0] == effs@[i as int]);
            assert(rem.drop_first() =~= effs@.skip(i as int + 1));
        }
        match effs[i] {
            Effect::SpawnBackend | Effect::RespawnBackend(_) => {
                let _h = sup.note_spawned();
            },
            Effect::StopBackend => {
                sup.request_stop();
            },
            _ => {},
        }
        i += 1;
    }
    proof {
        assert(effs@.skip(i as int) =~= Seq::<Effect>::empty());
    }
}

/// The merged event stream.  Each source appends at the tail; dispatch
/// takes from the head, so events leave in arrival order across all
/// sources and a fast source cannot starve a slow one.
pub struct Multiplexer {
    pub queue: Vec<Event>,
}

impl View for Multiplexer {
    type V = Seq<Event>;

    open spec fn view(&self) -> Seq<Event> {
        self.queue@
    }
}

impl Multiplexer {
    /// An empty stream.
    pub fn new() -> (mux: Multiplexer)
        ensures
            mux@ == Seq::<Event>::empty(),
    {
        Multiplexer { queue: Vec::new() }
    }

    /// Accepts an event from the remote session.
    pub fn submit_remote(&mut self, e: RemoteEvent)
        ensures
            final(self)@ == old(self)@.push(Event::Remote(e)),
    {
        self.queue.push(Event::Remote(e));
    }

    /// Accepts a notification from the backend supervisor.
    pub fn submit_backend(&mut self, e: BackendEvent)
        ensures
            final(self)@ == old(self)@.push(Event::Backend(e)),
    {
        self.queue.push(Event::Backend(e));
    }

    /// Accepts a method invocation from the control-surface bridge,
    /// already translated to a command.  The enqueue is the whole
    /// acknowledgement: the effect is observed later, through the next
    /// published snapshot.
    pub fn submit_bridge(&mut self, c: Command)
        ensures
            final(self)@ == old(self)@.push(Event::Bridge(c)),
    {
        self.queue.push(Event::Bridge(c));
    }

    /// Accepts the daemon-wide shutdown signal.
    pub fn signal_shutdown(&mut self)
        ensures
            final(self)@ == old(self)@.push(Event::Shutdown),
    {
        self.queue.push(Event::Shutdown);
    }

    /// Works through the queued events one at a time: each is dispatched
    /// to the state machine, the supervisor's ledger is brought in step
    /// with the resulting effects, and a machine torn down by a stop has
    /// its shutdown completed.  Dispatching ends with the first shutdown
    /// signal — later events stay queued — or when the queue is empty.
    /// The effects of all dispatched events are returned in order for the
    /// caller to act on.
    pub fn drive(&mut self, m: &mut StateMachine, sup: &mut Supervisor) -> (log: Vec<Effect>)
        requires
            wf(old(m)@),
            old(m)@.state !is ShuttingDown,
            sup_wf(*old(sup)),
            linked(*old(sup), old(m)@),
        ensures
            final(m)@ == drive_machine(old(m)@, old(self)@),
            final(self)@ == old(self)@.skip(drive_count(old(self)@)),
            log@ == drive_effects(old(m)@, old(self)@),
            wf(final(m)@),
            sup_wf(*final(sup)),
            linked(*final(sup), final(m)@),
            final(m)@.state !is ShuttingDown,
            has_shutdown(old(self)@) ==> final(m)@.state is Stopped && final(sup).handle
                is None,
    {
        let ghost q0 = old(self)@;
        let ghost m0 = old(m)@;
        let ghost mut consumed: int = 0;
        let mut done = false;
        let mut log: Vec<Effect> = Vec::new();
        proof {
            assert(q0.skip(0) =~= q0);
            assert(drive_effects(m0, q0) =~= log@ + drive_effects(m0, q0));
        }
        while !done && self.queue.len() > 0
            invariant
                wf(m@),
                sup_wf(*sup),
                linked(*sup, m@),
                m@.state !is ShuttingDown,
                0 <= consumed <= q0.len(),
                self.queue@ == q0.skip(consumed),
                !done ==> {
                    &&& drive_machine(m0, q0) == drive_machine(m@, self.queue@)
                    &&& drive_count(q0) == consumed + drive_count(self.queue@)
                    &&& drive_effects(m0, q0) == log@ + drive_effects(m@, self.queue@)
                },
                done ==> {
                    &&& m@ == drive_machine(m0, q0)
                    &&& consumed == drive_count(q0)
                    &&& log@ == drive_effects(m0, q0)
                    &&& m@.state is Stopped
                },
            decreases q0.len() - consumed + if done {
                0int
            } else {
                1int
            },
        {
            let ghost q_pre = self.queue@;
            let ghost m_pre = m@;
            let ghost log_pre = log@;
            let ev = self.queue.remove(0);
            let is_shutdown = match &ev {
                Event::Shutdown => true,
                _ => false,
            };
            match &ev {
                Event::Backend(BackendEvent::Exited) => {
                    let _k = sup.note_exit();
                },
                _ => {},
            }
            let mut effs = m.handle(&ev);
            proof {
                lemma_step_liveness(m_pre, ev);
            }
            apply_to_ledger(sup, &effs);
            log.append(&mut effs);
            match m.state {
                PlaybackState::ShuttingDown => {
                    m.complete_shutdown();
                },
                _ => {},
            }
            if is_shutdown {
                done = true;
            }
            proof {
                consumed = consumed + 1;
                assert(self.queue@ =~= q_pre.drop_first());
                assert(q0.skip(consumed) =~= q_pre.drop_first());
                assert(m@ == dispatch_view(m_pre, ev));
                assert(log@ =~= log_pre + step(m_pre, ev).1);
                if is_shutdown {
                    assert(drive_machine(m_pre, q_pre) == m@);
                    assert(drive_count(q_pre) == 1);
                    assert(drive_effects(m_pre, q_pre) =~= step(m_pre, ev).1
                        + Seq::<Effect>::empty());
                    assert(log@ =~= log_pre + drive_effects(m_pre, q_pre));
                } else {
                    assert(drive_machine(m_pre, q_pre) == drive_machine(m@, self.queue@));
                    assert(drive_count(q_pre) == 1 + drive_count(self.queue@));
                    assert(drive_effects(m_pre, q_pre) =~= step(m_pre, ev).1 + drive_effects(
                        m@, self.queue@));
                    assert(log@ + drive_effects(m@, self.queue@) =~= log_pre + drive_effects(
                        m_pre, q_pre));
                }
            }
        }
        proof {
            if !done {
                assert(self.queue@.len() == 0);
                assert(drive_machine(m@, self.queue@) == m@);
                assert(drive_count(self.queue@) == 0);
                assert(drive_effects(m@, self.queue@) =~= Seq::<Effect>::empty());
                assert(log@ =~= log@ + Seq::<Effect>::empty());
            }
            if has_shutdown(q0) {
                lemma_drive_shutdown_stops(m0, q0);
            }
        }
        log
    }
}

/// Whether a queue holds the shutdown signal.
pub open spec fn has_shutdown(evs: Seq<Event>) -> bool {
    exists|i: int| 0 <= i < evs.len() && evs[i] is Shutdown
}

/// Working through a queue that holds the shutdown signal always ends
/// with the machine stopped — and so, by the ledger link, with no live
/// backend handle: no subprocess is orphaned.
pub proof fn lemma_drive_shutdown_stops(m: MachineView, evs: Seq<Event>)
    requires
        has_shutdown(evs),
    ensures
        drive_machine(m, evs).state is Stopped,
        !needs_backend(drive_machine(m, evs).state),
    decreases evs.len(),
{
    if evs[0] is Shutdown {
        let m1 = step(m, evs[0]).0;
        assert(m1.state is ShuttingDown || m1.state == m.state);
    } else {
        let i = choose|i: int| 0 <= i < evs.len() && evs[i] is Shutdown;
        assert(evs.drop_first()[i - 1] is Shutdown);
        lemma_drive_shutdown_stops(dispatch_view(m, evs[0]), evs.drop_first());
    }
}

} // verus!
