use lbp_native::metadata::{PowerampState, TrackMetadata};
use lbp_native::session::{route, Action, Event, ListenType, Route, Session};

fn track(duration_ms: u64) -> TrackMetadata {
    TrackMetadata::new(duration_ms)
}

#[test]
fn pause_and_resume_shift_the_deadline() {
    let mut s = Session::new("tok".to_string(), 0);
    let a = s.handle_event(Event::StateChanged(PowerampState::Playing), 0);
    assert_eq!(a, Action::Idle);
    let a = s.handle_event(Event::TrackChanged(track(30_000), 0, 1_000, true), 1_000);
    assert_eq!(a, Action::Submit(ListenType::PlayingNow));
    assert_eq!(s.wake_at(), Some(30_000));
    assert_eq!(s.payload.listened_at, None);
    s.handle_event(Event::StateChanged(PowerampState::Paused), 11_000);
    assert_eq!(s.wake_at(), None);
    s.handle_event(Event::StateChanged(PowerampState::Playing), 16_000);
    assert_eq!(s.wake_at(), Some(35_000));
}

#[test]
fn repeated_pause_keeps_first_instant() {
    let mut s = Session::new(String::new(), 0);
    s.handle_event(Event::StateChanged(PowerampState::Playing), 0);
    s.handle_event(Event::TrackChanged(track(100_000), 0, 0, true), 0);
    assert_eq!(s.wake_at(), Some(50_000));
    s.handle_event(Event::StateChanged(PowerampState::Paused), 5_000);
    s.handle_event(Event::StateChanged(PowerampState::Paused), 8_000);
    s.handle_event(Event::StateChanged(PowerampState::Playing), 9_000);
    assert_eq!(s.wake_at(), Some(54_000));
    s.handle_event(Event::StateChanged(PowerampState::Playing), 20_000);
    assert_eq!(s.wake_at(), Some(54_000));
}

#[test]
fn late_track_arms_nothing() {
    let mut s = Session::new(String::new(), 0);
    s.handle_event(Event::StateChanged(PowerampState::Playing), 0);
    let a = s.handle_event(Event::TrackChanged(track(30_000), 29, 0, true), 0);
    assert_eq!(a, Action::Idle);
    assert_eq!(s.wake_at(), None);
    assert!(!s.timer.scrobble);
    assert_eq!(s.on_deadline(1_700_000_000), Action::Idle);
}

#[test]
fn ineligible_track_arms_nothing() {
    let mut s = Session::new(String::new(), 0);
    s.handle_event(Event::StateChanged(PowerampState::Playing), 0);
    let a = s.handle_event(Event::TrackChanged(track(30_000), 0, 0, false), 0);
    assert_eq!(a, Action::Idle);
    assert_eq!(s.wake_at(), None);
}

#[test]
fn deadline_fires_once() {
    let mut s = Session::new(String::new(), 0);
    s.handle_event(Event::StateChanged(PowerampState::Playing), 0);
    s.handle_event(Event::TrackChanged(track(30_000), 0, 0, true), 0);
    assert_eq!(s.on_deadline(1_700_000_000), Action::Submit(ListenType::Single));
    assert_eq!(s.payload.listened_at, Some(1_700_000_000));
    assert_eq!(s.wake_at(), None);
    assert_eq!(s.on_deadline(1_700_000_100), Action::Idle);
    assert_eq!(s.payload.listened_at, Some(1_700_000_000));
    s.handle_event(Event::StateChanged(PowerampState::Paused), 40_000);
    s.handle_event(Event::StateChanged(PowerampState::Playing), 41_000);
    s.handle_event(Event::SetToken("t2".to_string()), 42_000);
    assert_eq!(s.wake_at(), None);
    assert_eq!(s.on_deadline(1_700_000_200), Action::Idle);
    let a = s.handle_event(Event::TrackChanged(track(30_000), 0, 50_000, true), 50_000);
    assert_eq!(a, Action::Submit(ListenType::PlayingNow));
    assert_eq!(s.payload.listened_at, None);
    assert_eq!(s.on_deadline(1_700_000_300), Action::Submit(ListenType::Single));
}

#[test]
fn scenario_from_fresh_session() {
    let mut s = Session::new("tok".to_string(), 0);
    let a = s.handle_event(Event::TrackChanged(track(30_000), 0, 0, true), 0);
    assert_eq!(a, Action::Submit(ListenType::PlayingNow));
    assert_eq!(s.wake_at(), Some(29_000));
    s.handle_event(Event::StateChanged(PowerampState::Paused), 10_000);
    assert_eq!(s.wake_at(), None);
    s.handle_event(Event::StateChanged(PowerampState::Playing), 15_000);
    assert_eq!(s.wake_at(), Some(34_000));
    assert_eq!(s.on_deadline(1_700_000_000), Action::Submit(ListenType::Single));
}

#[test]
fn track_reported_while_paused_counts_from_report() {
    let mut s = Session::new(String::new(), 0);
    s.handle_event(Event::StateChanged(PowerampState::Paused), 0);
    s.handle_event(Event::TrackChanged(track(30_000), 0, 1_000, true), 1_000);
    assert_eq!(s.wake_at(), None);
    s.handle_event(Event::StateChanged(PowerampState::Playing), 5_000);
    assert_eq!(s.wake_at(), Some(34_000));
}

#[test]
fn new_track_deadline_follows_threshold() {
    for (d, due) in [(40_000u64, 39_000u64), (40_001, 20_000), (480_000, 240_000), (900_000, 240_000)] {
        let mut s = Session::new(String::new(), 0);
        s.handle_event(Event::TrackChanged(track(d), 0, 100, true), 100);
        assert_eq!(s.wake_at(), Some(100 + due));
    }
}

#[test]
fn set_token_replaces_token_only() {
    let mut s = Session::new("old".to_string(), 0);
    s.handle_event(Event::StateChanged(PowerampState::Playing), 0);
    s.handle_event(Event::TrackChanged(track(30_000), 0, 0, true), 0);
    let a = s.handle_event(Event::SetToken("new".to_string()), 10);
    assert_eq!(a, Action::Idle);
    assert_eq!(s.token, "new");
    assert_eq!(s.wake_at(), Some(29_000));
}

#[test]
fn stop_disarms_and_terminates() {
    for st in [PowerampState::Stopped, PowerampState::NoState] {
        let mut s = Session::new(String::new(), 0);
        s.handle_event(Event::StateChanged(PowerampState::Playing), 0);
        s.handle_event(Event::TrackChanged(track(30_000), 0, 0, true), 0);
        assert_eq!(s.handle_event(Event::StateChanged(st), 5), Action::Terminate);
        assert_eq!(s.wake_at(), None);
        assert_eq!(s.on_deadline(1), Action::Idle);
    }
}

#[test]
fn routes_of_host_signals() {
    let stop = Event::StateChanged(PowerampState::Stopped);
    assert_eq!(route(true, &stop), Route::Teardown);
    assert_eq!(route(false, &stop), Route::Ignore);
    assert_eq!(route(true, &Event::StateChanged(PowerampState::NoState)), Route::Teardown);
    let tok = Event::SetToken("t".to_string());
    assert_eq!(route(false, &tok), Route::Start);
    assert_eq!(route(true, &tok), Route::Forward);
    let play = Event::StateChanged(PowerampState::Playing);
    assert_eq!(route(false, &play), Route::Start);
    let tr = Event::TrackChanged(track(1), 0, 0, false);
    assert_eq!(route(true, &tr), Route::Forward);
}
