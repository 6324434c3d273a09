//! The global laws of the orchestration core, stated over the transition
//! relation and proved once for every reachable machine.
//!
//! The shutdown law — working through a queue that holds the shutdown
//! signal always ends with the machine stopped and no live backend
//! handle — stands with the multiplexer as
//! [`crate::mux::lemma_drive_shutdown_stops`].

use vstd::prelude::*;

use crate::bridge::snapshot_view;
use crate::machine::{crash_resume, needs_backend, step, wf, MachineView};
use crate::types::{BackendEvent, Command, Effect, Event, PendingCommand, RemoteEvent,
    VolumeLevel};

verus! {

/// The command an event carries, if it carries one; remote and bridge
/// commands count alike.
pub open spec fn event_command(e: Event) -> Option<Command> {
    match e {
        Event::Remote(RemoteEvent::Command(c)) => Some(c),
        Event::Bridge(c) => Some(c),
        _ => None,
    }
}

/// The transition table: exactly the machine/event pairs for which a
/// transition is defined.  Everything else is a no-op on the playback
/// phase.
pub open spec fn in_table(m: MachineView, e: Event) -> bool {
    let s = m.state;
    ||| (s is Stopped && e matches Event::Remote(RemoteEvent::TrackChanged(_)))
    ||| (s is Loading && e matches Event::Backend(BackendEvent::Ready))
    ||| (s is Loading && e matches Event::Backend(BackendEvent::LoadFailed))
    ||| (s is Playing && event_command(e) == Some(Command::Pause))
    ||| (s is Paused && event_command(e) == Some(Command::Play))
    ||| ((s is Playing || s is Paused) && (event_command(e) == Some(Command::Next)
        || event_command(e) == Some(Command::Previous)))
    ||| ((s is Playing || s is Paused) && e matches Event::Backend(BackendEvent::Exited))
    ||| (needs_backend(s) && (e is Shutdown || event_command(e) == Some(Command::Stop)))
    ||| ((s is Playing || s is Paused) && event_command(e) matches Some(Command::Seek(_)))
    ||| ((s is Playing || s is Paused) && event_command(e) matches Some(Command::SetVolume(_)))
}

/// Every event outside the transition table leaves the playback phase
/// unchanged: an idempotent no-op as far as state goes, for every
/// machine.
pub proof fn lemma_unlisted_is_noop(m: MachineView, e: Event)
    requires
        !in_table(m, e),
    ensures
        step(m, e).0.state == m.state,
{
}

/// A backend crash while playing (or paused) always re-enters `Loading`
/// and asks for exactly one respawn; the machine never falls silently to
/// `Stopped`.
pub proof fn lemma_crash_respawns(m: MachineView)
    requires
        wf(m),
        m.state is Playing || m.state is Paused,
    ensures
        step(m, Event::Backend(BackendEvent::Exited)).0.state is Loading,
        !(step(m, Event::Backend(BackendEvent::Exited)).0.state is Stopped),
        step(m, Event::Backend(BackendEvent::Exited)).1 == seq![
            Effect::RespawnBackend(crash_resume(m)),
        ],
        wf(step(m, Event::Backend(BackendEvent::Exited)).0),
{
}

/// How a transport command is queued while a load is in flight.
pub open spec fn deferred_of(c: Command) -> Option<PendingCommand> {
    match c {
        Command::Play => Some(PendingCommand::Play),
        Command::Pause => Some(PendingCommand::Pause),
        Command::Seek(p) => Some(PendingCommand::Seek(p)),
        _ => None,
    }
}

/// A play, pause or seek that arrives while a load is in flight is
/// deferred, not dropped: the machine stays in `Loading`, performs
/// nothing yet, and appends the command to its queue, to be consumed
/// exactly once when the backend reports ready.
pub proof fn lemma_loading_defers(m: MachineView, e: Event)
    requires
        wf(m),
        m.state is Loading,
        event_command(e) matches Some(c) && deferred_of(c) is Some,
    ensures
        step(m, e).0.state is Loading,
        step(m, e).0.pending == m.pending.push(
            deferred_of(event_command(e)->Some_0)->Some_0,
        ),
        step(m, e).1 == Seq::<Effect>::empty(),
{
}

/// A volume set through the control surface is reflected, clamped, in the
/// very next snapshot the machine publishes; the playback phase and the
/// rest of the machine do not move, so no intermediate state is
/// observable.
pub proof fn lemma_volume_reflected(m: MachineView, v: u16)
    requires
        wf(m),
    ensures
        ({
            let next = step(m, Event::Bridge(Command::SetVolume(v))).0;
            &&& snapshot_view(next).volume == VolumeLevel::clamp_spec(v)
            &&& next.state == m.state
            &&& next.track == m.track
            &&& next.last_position == m.last_position
            &&& wf(next)
        }),
{
}

} // verus!
