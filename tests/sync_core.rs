use rradio_sync::time_span::TimeSpan;

use rradio_sync::connection::{ConnectionState, Session, SessionAction, SessionEvent, RECONNECT_DELAY_SECS};
use rradio_sync::fast_eq_rc::FastEqRc;
use rradio_sync::player_state::{
    CurrentStation, LatestError, PingTimes, PipelineState, PlayerState, PlayerStateDiff, Track,
    TrackTags,
};
use rradio_sync::update_from_diff::UpdateFromDiff;

fn station_a() -> CurrentStation {
    CurrentStation::PlayingStation {
        index: Some(String::from("01")),
        source_type: String::from("UrlList"),
        title: Some(String::from("Station A")),
        tracks: Some(vec![Track {
            title: Some(String::from("First")),
            album: None,
            artist: Some(String::from("Someone")),
            url: String::from("http://example.com/first.mp3"),
            is_notification: false,
        }]),
    }
}

#[test]
fn clone_is_identity_equal() {
    let w = FastEqRc::new(5_i32);
    let c = w.clone();
    assert!(c == w);
    assert!(w == c);
    assert!(w == w);
    assert_eq!(*c.as_ref(), 5);
    assert_eq!(*c, 5);
}

#[test]
fn independent_wrappers_of_equal_values_differ() {
    let a = FastEqRc::new(String::from("same"));
    let b = FastEqRc::new(String::from("same"));
    assert_eq!(a.as_ref(), b.as_ref());
    assert!(a != b);
}

#[test]
fn wrapper_default_holds_default_value() {
    let w: FastEqRc<Vec<u8>> = FastEqRc::default();
    assert!(w.as_ref().is_empty());
}

#[test]
fn wrapper_update_none_keeps_identity() {
    let mut w = FastEqRc::new(1_u32);
    let before = w.clone();
    w.update_from_diff(None::<u32>);
    assert!(w == before);
    assert_eq!(*w.as_ref(), 1);
}

#[test]
fn wrapper_update_equal_value_changes_identity() {
    let mut w = FastEqRc::new(1_u32);
    let before = w.clone();
    w.update_from_diff(Some(1));
    assert!(w != before);
    assert_eq!(*w.as_ref(), 1);
}

#[test]
fn plain_update_from_diff() {
    let mut v = 10_i32;
    v.update_from_diff(None::<i32>);
    assert_eq!(v, 10);
    v.update_from_diff(Some(12));
    assert_eq!(v, 12);
}

#[test]
fn empty_diff_keeps_every_field() {
    let mut state = PlayerState::default();
    state.update_from_diff(PlayerStateDiff {
        current_station: Some(station_a()),
        volume: Some(10),
        track_duration: Some(Some(TimeSpan::from_secs(200))),
        ..PlayerStateDiff::default()
    });
    let before = state.clone();
    state.update_from_diff(PlayerStateDiff::default());
    assert!(state == before);
    assert!(state.current_station == before.current_station);
    assert!(state.current_track_tags == before.current_track_tags);
    assert!(state.latest_error == before.latest_error);
    assert_eq!(state.volume, 10);
    assert_eq!(state.track_duration, Some(TimeSpan::from_secs(200)));
}

#[test]
fn replacement_sets_value_and_new_identity() {
    let mut state = PlayerState::default();
    let before = state.clone();
    state.update_from_diff(PlayerStateDiff {
        pipeline_state: Some(PipelineState::Playing),
        current_track_tags: Some(Some(TrackTags {
            title: Some(String::from("Song")),
            organisation: None,
            artist: None,
            album: None,
            genre: None,
            image: None,
            comment: None,
        })),
        is_muted: Some(true),
        buffering: Some(50),
        latest_error: Some(None),
        ping_times: Some(PingTimes { gateway: Some(TimeSpan::from_millis(3)), remote: None }),
        ..PlayerStateDiff::default()
    });
    assert_eq!(state.pipeline_state, PipelineState::Playing);
    assert!(state.is_muted);
    assert_eq!(state.buffering, 50);
    assert_eq!(state.ping_times.gateway, Some(TimeSpan::from_millis(3)));
    assert_eq!(
        state.current_track_tags.as_ref().as_ref().and_then(|t| t.title.clone()),
        Some(String::from("Song"))
    );
    assert!(state.current_track_tags != before.current_track_tags);
    // Replaced with a value equal to the old one, still a new instance.
    assert_eq!(state.latest_error.as_ref(), before.latest_error.as_ref());
    assert!(state.latest_error != before.latest_error);
    // Left alone.
    assert!(state.current_station == before.current_station);
}

#[test]
fn same_diff_twice_same_values_new_identities() {
    let start = PlayerState::default();
    let diff = PlayerStateDiff {
        current_station: Some(station_a()),
        latest_error: Some(Some(LatestError { message: String::from("oops") })),
        volume: Some(7),
        ..PlayerStateDiff::default()
    };
    let mut first = start.clone();
    first.update_from_diff(diff.clone());
    let mut second = start.clone();
    second.update_from_diff(diff);
    assert_eq!(first.volume, second.volume);
    assert_eq!(first.current_station.as_ref(), second.current_station.as_ref());
    assert_eq!(first.latest_error.as_ref(), second.latest_error.as_ref());
    assert!(first.current_station != second.current_station);
    assert!(first.latest_error != second.latest_error);
    assert!(first.current_track_tags == second.current_track_tags);
}

#[test]
fn partial_diff_keeps_station_identity() {
    let mut state = PlayerState::default();
    state.update_from_diff(PlayerStateDiff {
        current_station: Some(station_a()),
        volume: Some(10),
        ..PlayerStateDiff::default()
    });
    let station = state.current_station.clone();
    assert_eq!(state.volume, 10);
    state.update_from_diff(PlayerStateDiff { volume: Some(12), ..PlayerStateDiff::default() });
    assert!(state.current_station == station);
    assert_eq!(state.volume, 12);
    assert_eq!(state.current_station.as_ref(), &station_a());
}

#[test]
fn initial_player_state() {
    let state = PlayerState::default();
    assert_eq!(state.pipeline_state, PipelineState::Null);
    assert_eq!(state.current_station.as_ref(), &CurrentStation::NoStation);
    assert_eq!(state.volume, 0);
    assert_eq!(state.current_track_index, 0);
    assert!(state.current_track_tags.as_ref().is_none());
    assert!(state.latest_error.as_ref().is_none());
}

#[test]
fn handle_closed_results() {
    assert_eq!(ConnectionState::handle_closed(Ok(())), ConnectionState::Disconnected);
    assert_eq!(
        ConnectionState::handle_closed(Err(String::from("boom"))),
        ConnectionState::ConnectionError(String::from("boom"))
    );
}

#[test]
fn first_attempt_failure_terminates() {
    let mut session = Session::new();
    assert_eq!(session.connection_state, ConnectionState::Connecting);
    let action = session.step::<u32>(SessionEvent::Failed(String::from("refused")));
    assert_eq!(action, SessionAction::Finish(Err(String::from("refused"))));
    assert_eq!(session.connection_state, ConnectionState::ConnectionError(String::from("refused")));
    assert!(session.is_finished);
    assert_eq!(session.step::<u32>(SessionEvent::DelayElapsed), SessionAction::Idle);
    assert_eq!(session.step::<u32>(SessionEvent::Opened), SessionAction::Idle);
    assert_eq!(session.connection_state, ConnectionState::ConnectionError(String::from("refused")));
}

#[test]
fn later_failure_retries_once_after_delay() {
    let mut session = Session::new();
    assert_eq!(session.step::<u32>(SessionEvent::Opened), SessionAction::Idle);
    assert_eq!(session.connection_state, ConnectionState::Connected);
    let action = session.step::<u32>(SessionEvent::Failed(String::from("reset")));
    assert_eq!(action, SessionAction::Sleep(RECONNECT_DELAY_SECS));
    assert_eq!(RECONNECT_DELAY_SECS, 3);
    assert_eq!(session.connection_state, ConnectionState::ConnectionError(String::from("reset")));
    assert!(!session.is_finished);
    assert_eq!(session.step::<u32>(SessionEvent::DelayElapsed), SessionAction::Connect);
    assert_eq!(session.connection_state, ConnectionState::Connecting);
    assert_eq!(session.step::<u32>(SessionEvent::DelayElapsed), SessionAction::Idle);
    // A failure of the new attempt is not fatal: the session has connected before.
    assert_eq!(
        session.step::<u32>(SessionEvent::Failed(String::from("refused"))),
        SessionAction::Sleep(RECONNECT_DELAY_SECS)
    );
    assert!(!session.is_finished);
}

#[test]
fn command_dropped_while_disconnected() {
    let mut session = Session::new();
    session.step::<u32>(SessionEvent::Opened);
    assert_eq!(session.step::<u32>(SessionEvent::Closed), SessionAction::Finish(Ok(())));
    assert_eq!(session.connection_state, ConnectionState::Disconnected);
    let mut sent: Vec<u32> = Vec::new();
    if let SessionAction::Send(command) = session.step(SessionEvent::Command(7_u32)) {
        sent.push(command);
    }
    assert!(sent.is_empty());
}

#[test]
fn command_dropped_while_connecting_sent_while_connected() {
    let mut session = Session::new();
    assert_eq!(session.step(SessionEvent::Command(1_u32)), SessionAction::Idle);
    session.step::<u32>(SessionEvent::Opened);
    assert_eq!(session.step(SessionEvent::Command(2_u32)), SessionAction::Send(2));
    assert_eq!(session.step(SessionEvent::Command(3_u32)), SessionAction::Send(3));
}

#[test]
fn diff_applied_only_while_connected() {
    let mut session = Session::new();
    session.step::<u32>(SessionEvent::Received(PlayerStateDiff {
        volume: Some(4),
        ..PlayerStateDiff::default()
    }));
    assert_eq!(session.player_state.volume, 0);
    session.step::<u32>(SessionEvent::Opened);
    session.step::<u32>(SessionEvent::Received(PlayerStateDiff {
        volume: Some(4),
        ..PlayerStateDiff::default()
    }));
    assert_eq!(session.player_state.volume, 4);
    assert_eq!(session.connection_state, ConnectionState::Connected);
}

#[test]
fn new_session_starts_connecting() {
    let session = Session::new();
    assert_eq!(session.connection_state, ConnectionState::Connecting);
    assert!(session.is_first_connection_attempt);
    assert!(!session.is_finished);
    assert_eq!(session.player_state.volume, 0);
    assert_eq!(session.player_state.current_station.as_ref(), &CurrentStation::NoStation);
}

#[test]
fn orderly_close_is_terminal() {
    let mut session = Session::new();
    session.step::<u32>(SessionEvent::Opened);
    assert_eq!(session.step::<u32>(SessionEvent::Closed), SessionAction::Finish(Ok(())));
    assert!(session.is_finished);
    assert_eq!(session.step::<u32>(SessionEvent::Failed(String::from("late"))), SessionAction::Idle);
    assert_eq!(session.step::<u32>(SessionEvent::DelayElapsed), SessionAction::Idle);
    assert_eq!(session.connection_state, ConnectionState::Disconnected);
}
