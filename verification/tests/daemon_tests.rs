//! Tests of the multiplexer, the supervisor's ledger and the bridge.

use spotifyd::bridge::{snapshot_of, BridgeFault, ControlSurfaceBridge, Notice, Snapshot};
use spotifyd::machine::StateMachine;
use spotifyd::mux::Multiplexer;
use spotifyd::supervisor::{ExitKind, Supervisor};
use spotifyd::types::{
    BackendEvent, Command, Effect, Event, PlaybackState, RemoteEvent, TrackMetadata, VolumeLevel,
    VOLUME_FULL,
};

fn track(id: &str, duration_secs: u32) -> TrackMetadata {
    TrackMetadata {
        title: format!("title of {}", id),
        artist: "artist".to_string(),
        album: "album".to_string(),
        duration_secs,
        id: id.to_string(),
    }
}

#[test]
fn drive_runs_a_scripted_session_in_arrival_order() {
    let mut mux = Multiplexer::new();
    let mut m = StateMachine::new(false);
    let mut sup = Supervisor::new();

    mux.submit_remote(RemoteEvent::TrackChanged(track("t1", 200)));
    mux.submit_backend(BackendEvent::Ready);
    mux.submit_bridge(Command::Pause);
    mux.submit_bridge(Command::Play);
    mux.submit_remote(RemoteEvent::Command(Command::Next));

    let log = mux.drive(&mut m, &mut sup);
    assert_eq!(m.state, PlaybackState::Loading);
    assert!(sup.live());
    assert_eq!(mux.queue.len(), 0);
    assert_eq!(
        log,
        vec![
            Effect::SpawnBackend,
            Effect::StartFeed,
            Effect::SuspendFeed,
            Effect::ResumeFeed,
            Effect::TearDownFeed,
            Effect::RequestTrack(spotifyd::types::Direction::Next),
        ]
    );
}

#[test]
fn shutdown_leaves_no_live_handle_and_dispatches_nothing_after() {
    let mut mux = Multiplexer::new();
    let mut m = StateMachine::new(false);
    let mut sup = Supervisor::new();

    mux.submit_remote(RemoteEvent::TrackChanged(track("t1", 200)));
    mux.submit_backend(BackendEvent::Ready);
    mux.signal_shutdown();
    mux.submit_bridge(Command::Play);

    let log = mux.drive(&mut m, &mut sup);
    assert_eq!(m.state, PlaybackState::Stopped);
    assert!(!sup.live());
    assert!(sup.handle.is_none());
    assert_eq!(mux.queue.len(), 1);
    assert!(matches!(mux.queue[0], Event::Bridge(Command::Play)));
    assert_eq!(
        log,
        vec![
            Effect::SpawnBackend,
            Effect::StartFeed,
            Effect::StopBackend,
            Effect::FlushBridge,
        ]
    );
}

#[test]
fn shutdown_while_already_stopped_is_quiet() {
    let mut mux = Multiplexer::new();
    let mut m = StateMachine::new(false);
    let mut sup = Supervisor::new();

    mux.signal_shutdown();
    let log = mux.drive(&mut m, &mut sup);
    assert_eq!(m.state, PlaybackState::Stopped);
    assert!(!sup.live());
    assert_eq!(log, vec![]);
}

#[test]
fn remote_stop_does_not_end_the_session() {
    let mut mux = Multiplexer::new();
    let mut m = StateMachine::new(false);
    let mut sup = Supervisor::new();

    mux.submit_remote(RemoteEvent::TrackChanged(track("t1", 200)));
    mux.submit_backend(BackendEvent::Ready);
    mux.submit_remote(RemoteEvent::Command(Command::Stop));
    mux.submit_remote(RemoteEvent::TrackChanged(track("t2", 100)));

    mux.drive(&mut m, &mut sup);
    assert_eq!(m.state, PlaybackState::Loading);
    assert_eq!(m.track.as_ref().map(|t| t.id.as_str()), Some("t2"));
    assert!(sup.live());
    assert_eq!(mux.queue.len(), 0);
}

#[test]
fn crash_respawn_spawns_a_fresh_generation() {
    let mut mux = Multiplexer::new();
    let mut m = StateMachine::new(false);
    let mut sup = Supervisor::new();

    mux.submit_remote(RemoteEvent::TrackChanged(track("t1", 200)));
    mux.submit_backend(BackendEvent::Ready);
    mux.submit_backend(BackendEvent::Exited);

    mux.drive(&mut m, &mut sup);
    assert_eq!(m.state, PlaybackState::Loading);
    assert!(sup.live());
    assert_eq!(sup.spawn_count, 2);
    assert_eq!(sup.handle.map(|h| h.generation), Some(2));
}

#[test]
fn exit_classification_follows_the_stop_in_flight() {
    let mut sup = Supervisor::new();

    let h = sup.note_spawned();
    assert_eq!(h.generation, 1);
    sup.request_stop();
    assert_eq!(sup.note_exit(), ExitKind::Requested);

    sup.note_spawned();
    assert_eq!(sup.note_exit(), ExitKind::Crashed);

    assert_eq!(sup.note_exit(), ExitKind::Stale);
}

#[test]
fn volume_reaches_the_next_snapshot() {
    let mut m = StateMachine::new(false);
    let mut bridge = ControlSurfaceBridge::new(snapshot_of(&m));

    m.handle(&Event::Bridge(Command::SetVolume(3000)));
    let notices = bridge.publish(snapshot_of(&m)).unwrap();
    assert_eq!(notices, vec![Notice::Volume(VolumeLevel(3000))]);
    assert_eq!(bridge.volume(), VolumeLevel(3000));
}

#[test]
fn publish_reports_exactly_the_changed_properties() {
    let mut m = StateMachine::new(false);
    let mut bridge = ControlSurfaceBridge::new(snapshot_of(&m));

    m.handle(&Event::Remote(RemoteEvent::TrackChanged(track("t1", 200))));
    let notices = bridge.publish(snapshot_of(&m)).unwrap();
    assert_eq!(notices.len(), 2);
    assert_eq!(notices[0], Notice::State(PlaybackState::Loading));
    assert!(matches!(&notices[1], Notice::Track(Some(t)) if t.id == "t1"));

    let notices = bridge.publish(snapshot_of(&m)).unwrap();
    assert_eq!(notices, vec![]);
}

#[test]
fn disconnected_bridge_fails_and_catches_up_on_reconnect() {
    let mut m = StateMachine::new(false);
    let mut bridge = ControlSurfaceBridge::new(snapshot_of(&m));

    bridge.set_connected(false);
    m.handle(&Event::Bridge(Command::SetVolume(1000)));
    assert_eq!(
        bridge.publish(snapshot_of(&m)),
        Err(BridgeFault::Disconnected)
    );
    assert_eq!(bridge.volume(), VolumeLevel(VOLUME_FULL));

    bridge.set_connected(true);
    let notices = bridge.publish(snapshot_of(&m)).unwrap();
    assert_eq!(notices, vec![Notice::Volume(VolumeLevel(1000))]);
}

#[test]
fn load_failure_clears_the_track_on_the_surface() {
    let mut m = StateMachine::new(false);
    let mut bridge = ControlSurfaceBridge::new(snapshot_of(&m));

    m.handle(&Event::Remote(RemoteEvent::TrackChanged(track("t1", 200))));
    bridge.publish(snapshot_of(&m)).unwrap();

    m.handle(&Event::Backend(BackendEvent::LoadFailed));
    let notices = bridge.publish(snapshot_of(&m)).unwrap();
    assert_eq!(
        notices,
        vec![Notice::State(PlaybackState::Stopped), Notice::Track(None)]
    );
}

#[test]
fn bridge_answers_queries_from_the_last_snapshot() {
    let mut m = StateMachine::new(false);
    m.handle(&Event::Remote(RemoteEvent::TrackChanged(track("t1", 200))));
    m.handle(&Event::Backend(BackendEvent::Ready));
    m.handle(&Event::Bridge(Command::Seek(30)));

    let mut bridge = ControlSurfaceBridge::new(Snapshot {
        state: PlaybackState::Stopped,
        track: None,
        volume: VolumeLevel(VOLUME_FULL),
        position: 0,
    });
    bridge.publish(snapshot_of(&m)).unwrap();

    assert_eq!(bridge.state(), PlaybackState::Playing);
    assert_eq!(bridge.position(), 30);
    assert_eq!(bridge.track().map(|t| t.id), Some("t1".to_string()));
}

#[test]
fn queue_preserves_arrival_order_across_sources() {
    let mut mux = Multiplexer::new();
    mux.submit_bridge(Command::Play);
    mux.submit_remote(RemoteEvent::AuthExpired);
    mux.submit_backend(BackendEvent::Ready);

    assert_eq!(mux.queue.len(), 3);
    assert!(matches!(mux.queue[0], Event::Bridge(Command::Play)));
    assert!(matches!(mux.queue[1], Event::Remote(RemoteEvent::AuthExpired)));
    assert!(matches!(mux.queue[2], Event::Backend(BackendEvent::Ready)));
}
