//! Scenario tests for the playback state machine.

use spotifyd::machine::StateMachine;
use spotifyd::types::{
    BackendEvent, Command, Direction, Effect, Event, PlaybackState, RemoteEvent, TrackMetadata,
    VolumeLevel, VOLUME_FULL,
};

fn track(id: &str, duration_secs: u32) -> TrackMetadata {
    TrackMetadata {
        title: format!("title of {}", id),
        artist: "artist".to_string(),
        album: "album".to_string(),
        duration_secs,
        id: id.to_string(),
    }
}

fn load(id: &str, duration_secs: u32) -> Event {
    Event::Remote(RemoteEvent::TrackChanged(track(id, duration_secs)))
}

#[test]
fn play_pause_next_sequence_is_deterministic() {
    let mut m = StateMachine::new(false);
    assert_eq!(m.state, PlaybackState::Stopped);

    let effects = m.handle(&load("t1", 200));
    assert_eq!(m.state, PlaybackState::Loading);
    assert_eq!(effects, vec![Effect::SpawnBackend]);

    let effects = m.handle(&Event::Backend(BackendEvent::Ready));
    assert_eq!(m.state, PlaybackState::Playing);
    assert_eq!(effects, vec![Effect::StartFeed]);

    let effects = m.handle(&Event::Bridge(Command::Pause));
    assert_eq!(m.state, PlaybackState::Paused);
    assert_eq!(effects, vec![Effect::SuspendFeed]);

    let effects = m.handle(&Event::Bridge(Command::Play));
    assert_eq!(m.state, PlaybackState::Playing);
    assert_eq!(effects, vec![Effect::ResumeFeed]);

    let effects = m.handle(&Event::Remote(RemoteEvent::Command(Command::Next)));
    assert_eq!(m.state, PlaybackState::Loading);
    assert_eq!(
        effects,
        vec![Effect::TearDownFeed, Effect::RequestTrack(Direction::Next)]
    );
}

#[test]
fn pause_before_ready_is_deferred_and_no_audio_is_fed() {
    let mut m = StateMachine::new(false);
    let mut all_effects: Vec<Effect> = Vec::new();

    all_effects.extend(m.handle(&load("t1", 200)));
    all_effects.extend(m.handle(&Event::Bridge(Command::Pause)));
    assert_eq!(m.state, PlaybackState::Loading);

    let ready_effects = m.handle(&Event::Backend(BackendEvent::Ready));
    all_effects.extend(ready_effects);

    assert_eq!(m.state, PlaybackState::Paused);
    assert!(all_effects.iter().all(|e| *e != Effect::StartFeed));
}

#[test]
fn remote_pause_before_ready_behaves_like_bridge_pause() {
    let mut m = StateMachine::new(false);
    m.handle(&load("t1", 200));
    let effects = m.handle(&Event::Remote(RemoteEvent::Command(Command::Pause)));
    assert_eq!(effects, vec![]);
    m.handle(&Event::Backend(BackendEvent::Ready));
    assert_eq!(m.state, PlaybackState::Paused);
}

#[test]
fn seek_beyond_track_end_is_clamped() {
    let mut m = StateMachine::new(false);
    m.handle(&load("t1", 180));
    m.handle(&Event::Backend(BackendEvent::Ready));

    let effects = m.handle(&Event::Bridge(Command::Seek(9999)));
    assert_eq!(m.state, PlaybackState::Playing);
    assert_eq!(
        effects,
        vec![Effect::ForwardSeek(180), Effect::ReportPosition(180)]
    );
    assert_eq!(m.last_position, Some(180));
}

#[test]
fn seek_within_track_is_kept_exact() {
    let mut m = StateMachine::new(false);
    m.handle(&load("t1", 180));
    m.handle(&Event::Backend(BackendEvent::Ready));

    let effects = m.handle(&Event::Bridge(Command::Seek(90)));
    assert_eq!(
        effects,
        vec![Effect::ForwardSeek(90), Effect::ReportPosition(90)]
    );
    assert_eq!(m.last_position, Some(90));
}

#[test]
fn deferred_seek_is_clamped_when_consumed() {
    let mut m = StateMachine::new(false);
    m.handle(&load("t1", 100));
    assert_eq!(m.handle(&Event::Bridge(Command::Seek(500))), vec![]);

    let effects = m.handle(&Event::Backend(BackendEvent::Ready));
    assert_eq!(m.state, PlaybackState::Playing);
    assert_eq!(
        effects,
        vec![
            Effect::ForwardSeek(100),
            Effect::ReportPosition(100),
            Effect::StartFeed,
        ]
    );
}

#[test]
fn volume_is_clamped_and_forwarded() {
    let mut m = StateMachine::new(false);
    m.handle(&load("t1", 200));
    m.handle(&Event::Backend(BackendEvent::Ready));

    let effects = m.handle(&Event::Bridge(Command::SetVolume(12000)));
    assert_eq!(m.volume, VolumeLevel(VOLUME_FULL));
    assert_eq!(
        effects,
        vec![
            Effect::ForwardVolume(VolumeLevel(VOLUME_FULL)),
            Effect::ReportVolume(VolumeLevel(VOLUME_FULL)),
        ]
    );

    let effects = m.handle(&Event::Remote(RemoteEvent::Command(Command::SetVolume(4000))));
    assert_eq!(m.volume, VolumeLevel(4000));
    assert_eq!(
        effects,
        vec![
            Effect::ForwardVolume(VolumeLevel(4000)),
            Effect::ReportVolume(VolumeLevel(4000)),
        ]
    );
}

#[test]
fn volume_while_stopped_is_stored_but_not_forwarded() {
    let mut m = StateMachine::new(false);
    let effects = m.handle(&Event::Bridge(Command::SetVolume(2500)));
    assert_eq!(m.state, PlaybackState::Stopped);
    assert_eq!(m.volume, VolumeLevel(2500));
    assert_eq!(effects, vec![Effect::ReportVolume(VolumeLevel(2500))]);
}

#[test]
fn crash_while_playing_respawns_and_restarts_track() {
    let mut m = StateMachine::new(false);
    m.handle(&load("t1", 200));
    m.handle(&Event::Backend(BackendEvent::Ready));
    m.handle(&Event::Bridge(Command::Seek(42)));

    let effects = m.handle(&Event::Backend(BackendEvent::Exited));
    assert_eq!(m.state, PlaybackState::Loading);
    assert_eq!(effects, vec![Effect::RespawnBackend(None)]);
}

#[test]
fn crash_while_playing_resumes_at_last_position_when_configured() {
    let mut m = StateMachine::new(true);
    m.handle(&load("t1", 200));
    m.handle(&Event::Backend(BackendEvent::Ready));
    m.handle(&Event::Bridge(Command::Seek(42)));

    let effects = m.handle(&Event::Backend(BackendEvent::Exited));
    assert_eq!(m.state, PlaybackState::Loading);
    assert_eq!(effects, vec![Effect::RespawnBackend(Some(42))]);
}

#[test]
fn crash_while_paused_also_reloads() {
    let mut m = StateMachine::new(false);
    m.handle(&load("t1", 200));
    m.handle(&Event::Backend(BackendEvent::Ready));
    m.handle(&Event::Bridge(Command::Pause));

    let effects = m.handle(&Event::Backend(BackendEvent::Exited));
    assert_eq!(m.state, PlaybackState::Loading);
    assert_eq!(effects, vec![Effect::RespawnBackend(None)]);
}

#[test]
fn events_outside_the_table_are_noops() {
    let mut m = StateMachine::new(false);

    assert_eq!(m.handle(&Event::Bridge(Command::Pause)), vec![]);
    assert_eq!(m.state, PlaybackState::Stopped);
    assert_eq!(m.handle(&Event::Bridge(Command::Play)), vec![]);
    assert_eq!(m.state, PlaybackState::Stopped);
    assert_eq!(m.handle(&Event::Bridge(Command::Next)), vec![]);
    assert_eq!(m.state, PlaybackState::Stopped);
    assert_eq!(m.handle(&Event::Bridge(Command::Seek(10))), vec![]);
    assert_eq!(m.state, PlaybackState::Stopped);
    assert_eq!(m.handle(&Event::Backend(BackendEvent::Ready)), vec![]);
    assert_eq!(m.state, PlaybackState::Stopped);
    assert_eq!(m.handle(&Event::Backend(BackendEvent::Exited)), vec![]);
    assert_eq!(m.state, PlaybackState::Stopped);

    m.handle(&load("t1", 200));
    m.handle(&Event::Backend(BackendEvent::Ready));
    assert_eq!(m.handle(&Event::Bridge(Command::Play)), vec![]);
    assert_eq!(m.state, PlaybackState::Playing);
}

#[test]
fn stop_tears_down_and_completes_to_stopped() {
    let mut m = StateMachine::new(false);
    m.handle(&load("t1", 200));
    m.handle(&Event::Backend(BackendEvent::Ready));

    let effects = m.handle(&Event::Bridge(Command::Stop));
    assert_eq!(m.state, PlaybackState::ShuttingDown);
    assert_eq!(effects, vec![Effect::StopBackend, Effect::FlushBridge]);
    assert!(m.track.is_none());

    m.complete_shutdown();
    assert_eq!(m.state, PlaybackState::Stopped);
}

#[test]
fn load_failure_falls_back_to_stopped_and_reports() {
    let mut m = StateMachine::new(false);
    m.handle(&load("t1", 200));

    let effects = m.handle(&Event::Backend(BackendEvent::LoadFailed));
    assert_eq!(m.state, PlaybackState::Stopped);
    assert_eq!(effects, vec![Effect::StopBackend, Effect::ReportError]);
    assert!(m.track.is_none());
}

#[test]
fn track_change_while_playing_replaces_metadata_only() {
    let mut m = StateMachine::new(false);
    m.handle(&load("t1", 200));
    m.handle(&Event::Backend(BackendEvent::Ready));
    m.handle(&Event::Bridge(Command::Seek(10)));

    let effects = m.handle(&load("t2", 300));
    assert_eq!(m.state, PlaybackState::Playing);
    assert_eq!(effects, vec![]);
    assert_eq!(m.track.as_ref().map(|t| t.id.as_str()), Some("t2"));
    assert_eq!(m.last_position, None);
}

#[test]
fn disconnect_delegates_reconnection_and_keeps_state() {
    let mut m = StateMachine::new(false);
    m.handle(&load("t1", 200));
    m.handle(&Event::Backend(BackendEvent::Ready));

    let effects = m.handle(&Event::Remote(RemoteEvent::Disconnected));
    assert_eq!(m.state, PlaybackState::Playing);
    assert_eq!(effects, vec![Effect::AttemptReconnect]);

    let effects = m.handle(&Event::Remote(RemoteEvent::AuthExpired));
    assert_eq!(m.state, PlaybackState::Playing);
    assert_eq!(effects, vec![Effect::AttemptReconnect]);
}
