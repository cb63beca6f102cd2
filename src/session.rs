use vstd::prelude::*;

use crate::metadata::{Payload, PowerampState, TrackMetadata};
use crate::threshold::{lemma_no_wait_past_threshold, remaining_spec, remaining_wait, threshold_spec};

verus! {

/// A signal for the session worker. Times are milliseconds of a monotonic
/// clock.
pub enum Event {
    /// A new track: its metadata, the position (seconds) it was reported at,
    /// the instant it was observed, and whether its metadata qualifies it.
    TrackChanged(TrackMetadata, i32, u64, bool),
    StateChanged(PowerampState),
    SetToken(String),
}

/// The kind of a submission to the listen service.
#[derive(PartialEq, Eq, Structural, Clone, Copy, Debug)]
pub enum ListenType {
    PlayingNow,
    Single,
    Import,
}

/// What the worker must do after a step.
#[derive(PartialEq, Eq, Structural, Clone, Copy, Debug)]
pub enum Action {
    /// Nothing to do; wait for the next event or the deadline.
    Idle,
    /// Submit the session's current payload with this listen type.
    Submit(ListenType),
    /// The session is over: stop the worker.
    Terminate,
}

/// The timing part of a session: whether the current track may still be
/// scrobbled, whether the worker waits for its deadline, and the pause
/// bookkeeping.
#[derive(PartialEq, Eq, Structural, Clone, Copy, Debug)]
pub struct Timer {
    /// The current track still qualifies for a "single" listen.
    pub scrobble: bool,
    /// The deadline is armed: the worker wakes at `deadline_ms`.
    pub timeout: bool,
    pub paused: bool,
    pub deadline_ms: u64,
    pub pause_started_ms: u64,
}

/// `a + b`, saturated at the largest `u64`.
pub open spec fn add_sat(a: u64, b: int) -> u64 {
    if a + b > u64::MAX {
        u64::MAX
    } else {
        (a + b) as u64
    }
}

/// Time elapsed from `from` to `to`, zero if `to` is earlier.
pub open spec fn elapsed(from: u64, to: u64) -> int {
    if to >= from {
        to - from
    } else {
        0
    }
}

impl Timer {
    /// The deadline is armed exactly when the track qualifies and playback is
    /// not paused.
    pub open spec fn wf(self) -> bool {
        self.timeout == (self.scrobble && !self.paused)
    }

    /// The timer with the track no longer qualifying and no deadline armed.
    pub open spec fn disarmed(self) -> Timer {
        Timer { scrobble: false, timeout: false, ..self }
    }
}

/// Adds two instants or durations, saturating instead of overflowing.
pub fn add_saturating(a: u64, b: u64) -> (r: u64)
    ensures
        r == add_sat(a, b as int),
{
    if a > u64::MAX - b {
        u64::MAX
    } else {
        a + b
    }
}

/// The timer after an event handled at `now`. A track reported while paused
/// counts its pause from the report instant, so time paused before it does
/// not delay its deadline. A pause while already paused
/// keeps the instant the pause began; resuming moves the deadline by the
/// whole time spent paused; resuming while playing moves nothing.
pub open spec fn timer_after(t: Timer, e: Event, now: u64) -> Timer {
    match e {
        Event::TrackChanged(md, pos, at, eligible) => {
            if !eligible {
                t.disarmed()
            } else {
                match remaining_spec(md.additional_info.duration_ms as int, pos as int, 1) {
                    None => t.disarmed(),
                    Some(w) => Timer {
                        scrobble: true,
                        timeout: !t.paused,
                        deadline_ms: add_sat(at, w),
                        pause_started_ms: if t.paused { at } else { t.pause_started_ms },
                        ..t
                    },
                }
            }
        },
        Event::StateChanged(st) => {
            if st == PowerampState::Paused {
                if t.paused {
                    t
                } else {
                    Timer { paused: true, timeout: false, pause_started_ms: now, ..t }
                }
            } else if st == PowerampState::Playing {
                Timer {
                    paused: false,
                    timeout: t.scrobble,
                    deadline_ms: if t.paused {
                        add_sat(t.deadline_ms, elapsed(t.pause_started_ms, now))
                    } else {
                        t.deadline_ms
                    },
                    ..t
                }
            } else {
                t.disarmed()
            }
        },
        Event::SetToken(_) => t,
    }
}

/// What the worker does after an event.
pub open spec fn action_after(e: Event) -> Action {
    match e {
        Event::TrackChanged(md, pos, _, eligible) => {
            if eligible && remaining_spec(md.additional_info.duration_ms as int, pos as int, 1) is Some {
                Action::Submit(ListenType::PlayingNow)
            } else {
                Action::Idle
            }
        },
        Event::StateChanged(st) => {
            if st.ends_session_spec() {
                Action::Terminate
            } else {
                Action::Idle
            }
        },
        Event::SetToken(_) => Action::Idle,
    }
}

/// What the worker does when the deadline passes with no event pending.
pub open spec fn fire_action(t: Timer) -> Action {
    if t.scrobble {
        Action::Submit(ListenType::Single)
    } else {
        Action::Idle
    }
}

/// The listened-at stamp for a Unix time in seconds: none for time zero.
pub open spec fn stamp(unix_s: u64) -> Option<u64> {
    if unix_s == 0 {
        None
    } else {
        Some(unix_s)
    }
}

/// The timer after a run of events, each with the instant it is handled at.
pub open spec fn timer_run(t: Timer, events: Seq<(Event, u64)>) -> Timer
    decreases events.len(),
{
    if events.len() == 0 {
        t
    } else {
        timer_run(timer_after(t, events[0].0, events[0].1), events.drop_first())
    }
}

/// Every event keeps the timer well formed.
pub proof fn lemma_step_keeps_wf(t: Timer, e: Event, now: u64)
    requires
        t.wf(),
    ensures
        timer_after(t, e, now).wf(),
{
}

/// A qualifying track reported at or past its threshold arms no deadline and
/// sends no "playing now" notice.
pub proof fn lemma_late_track_never_arms(t: Timer, md: TrackMetadata, pos: i32, at: u64, now: u64)
    requires
        pos as int * 1000 >= threshold_spec(md.additional_info.duration_ms as int),
    ensures
        !timer_after(t, Event::TrackChanged(md, pos, at, true), now).timeout,
        !timer_after(t, Event::TrackChanged(md, pos, at, true), now).scrobble,
        action_after(Event::TrackChanged(md, pos, at, true)) == Action::Idle,
{
    lemma_no_wait_past_threshold(md.additional_info.duration_ms as int, pos as int, 1);
}

/// A deadline armed by a new track lies after the instant the track was
/// observed, by exactly the wait the threshold rule gives.
pub proof fn lemma_armed_deadline_ahead(t: Timer, md: TrackMetadata, pos: i32, at: u64, now: u64)
    requires
        remaining_spec(md.additional_info.duration_ms as int, pos as int, 1) is Some,
        at + remaining_spec(md.additional_info.duration_ms as int, pos as int, 1)->Some_0 <= u64::MAX,
    ensures
        timer_after(t, Event::TrackChanged(md, pos, at, true), now).scrobble,
        timer_after(t, Event::TrackChanged(md, pos, at, true), now).deadline_ms == at
            + remaining_spec(md.additional_info.duration_ms as int, pos as int, 1)->Some_0,
        timer_after(t, Event::TrackChanged(md, pos, at, true), now).deadline_ms > at,
{
}

/// A qualifying track reported from its start, at `at`, is due exactly its
/// threshold later: one second short of its end up to forty seconds, half
/// its length capped at four minutes beyond.
pub proof fn lemma_new_track_deadline(t: Timer, md: TrackMetadata, at: u64, now: u64)
    requires
        md.additional_info.duration_ms > 1000,
        at + threshold_spec(md.additional_info.duration_ms as int) <= u64::MAX,
    ensures
        timer_after(t, Event::TrackChanged(md, 0, at, true), now).scrobble,
        timer_after(t, Event::TrackChanged(md, 0, at, true), now).timeout == !t.paused,
        timer_after(t, Event::TrackChanged(md, 0, at, true), now).deadline_ms == at + threshold_spec(
            md.additional_info.duration_ms as int,
        ),
        md.additional_info.duration_ms <= 40_000 ==> timer_after(
            t,
            Event::TrackChanged(md, 0, at, true),
            now,
        ).deadline_ms == at + md.additional_info.duration_ms - 1000,
        md.additional_info.duration_ms > 40_000 ==> timer_after(
            t,
            Event::TrackChanged(md, 0, at, true),
            now,
        ).deadline_ms == at + if md.additional_info.duration_ms / 2 < 240_000 {
            md.additional_info.duration_ms / 2
        } else {
            240_000
        },
{
}

/// Resuming `p` milliseconds after a pause began moves the deadline back by
/// exactly `p`; the deadline is then armed exactly when the track qualifies.
pub proof fn lemma_resume_adds_pause(t: Timer, p: u64)
    requires
        t.wf(),
        t.paused,
        t.pause_started_ms + p <= u64::MAX,
        t.deadline_ms + p <= u64::MAX,
    ensures
        ({
            let r = timer_after(t, Event::StateChanged(PowerampState::Playing), (t.pause_started_ms + p) as u64);
            &&& r.deadline_ms == t.deadline_ms + p
            &&& !r.paused
            &&& r.timeout == r.scrobble
            &&& r.scrobble == t.scrobble
        }),
{
}

/// A track reported while paused, then resumed `p` milliseconds after the
/// report, is due its wait plus `p` from the report: time paused before the
/// report does not count.
pub proof fn lemma_track_while_paused(t: Timer, md: TrackMetadata, pos: i32, at: u64, now: u64, p: u64)
    requires
        t.wf(),
        t.paused,
        remaining_spec(md.additional_info.duration_ms as int, pos as int, 1) is Some,
        at + remaining_spec(md.additional_info.duration_ms as int, pos as int, 1)->Some_0 + p
            <= u64::MAX,
    ensures
        ({
            let w = remaining_spec(md.additional_info.duration_ms as int, pos as int, 1)->Some_0;
            let armed = timer_after(t, Event::TrackChanged(md, pos, at, true), now);
            let resumed = timer_after(armed, Event::StateChanged(PowerampState::Playing), (at + p) as u64);
            &&& !armed.timeout
            &&& resumed.timeout
            &&& resumed.deadline_ms == at + w + p
        }),
{
}

/// Pausing at `t1` and resuming `p` milliseconds later moves the deadline
/// back by exactly `p`, and leaves the track's eligibility and the armed
/// deadline as they were.
pub proof fn lemma_pause_resume_shifts_deadline(t: Timer, t1: u64, p: u64)
    requires
        t.wf(),
        !t.paused,
        t1 + p <= u64::MAX,
        t.deadline_ms + p <= u64::MAX,
    ensures
        ({
            let paused = timer_after(t, Event::StateChanged(PowerampState::Paused), t1);
            let resumed = timer_after(paused, Event::StateChanged(PowerampState::Playing), (t1 + p) as u64);
            &&& !paused.timeout
            &&& resumed.deadline_ms == t.deadline_ms + p
            &&& resumed.timeout == t.timeout
            &&& resumed.scrobble == t.scrobble
            &&& !resumed.paused
        }),
{
}

/// Once the deadline has fired, no event but a new track makes it fire a
/// "single" listen again.
pub proof fn lemma_fires_at_most_once(t: Timer, events: Seq<(Event, u64)>)
    requires
        forall|i: int| 0 <= i < events.len() ==> !(events[i].0 is TrackChanged),
    ensures
        fire_action(t.disarmed()) == Action::Idle,
        fire_action(timer_run(t.disarmed(), events)) == Action::Idle,
        !timer_run(t.disarmed(), events).scrobble,
{
    lemma_no_track_keeps_off(t.disarmed(), events);
}

proof fn lemma_no_track_keeps_off(t: Timer, events: Seq<(Event, u64)>)
    requires
        !t.scrobble,
        forall|i: int| 0 <= i < events.len() ==> !(events[i].0 is TrackChanged),
    ensures
        !timer_run(t, events).scrobble,
    decreases events.len(),
{
    if events.len() > 0 {
        let next = timer_after(t, events[0].0, events[0].1);
        assert(!(events[0].0 is TrackChanged));
        let rest = events.drop_first();
        assert forall|i: int| 0 <= i < rest.len() implies !(rest[i].0 is TrackChanged) by {
            assert(rest[i] == events[i + 1]);
        }
        lemma_no_track_keeps_off(next, rest);
    }
}

/// A stop (or the loss of any player state) disarms the deadline, withdraws
/// the track's eligibility and ends the worker, whatever the session held.
pub proof fn lemma_stop_disarms(t: Timer, st: PowerampState, now: u64)
    requires
        st.ends_session_spec(),
    ensures
        !timer_after(t, Event::StateChanged(st), now).timeout,
        !timer_after(t, Event::StateChanged(st), now).scrobble,
        action_after(Event::StateChanged(st)) == Action::Terminate,
        fire_action(timer_after(t, Event::StateChanged(st), now)) == Action::Idle,
{
}

/// Where a host signal goes, given whether a session is running.
#[derive(PartialEq, Eq, Structural, Clone, Copy, Debug)]
pub enum Route {
    /// Hand the event to the running worker.
    Forward,
    /// Start a fresh session whose worker handles the event first.
    Start,
    /// End the running session and tell the host it stopped.
    Teardown,
    /// Nothing to end: no session is running.
    Ignore,
}

pub open spec fn route_spec(active: bool, e: Event) -> Route {
    if e is StateChanged && e->StateChanged_0.ends_session_spec() {
        if active {
            Route::Teardown
        } else {
            Route::Ignore
        }
    } else if active {
        Route::Forward
    } else {
        Route::Start
    }
}

/// Whether a session runs after a signal took this route.
pub open spec fn active_after(active: bool, r: Route) -> bool {
    match r {
        Route::Forward | Route::Start => true,
        Route::Teardown => false,
        Route::Ignore => active,
    }
}

/// Decides where a host signal goes.
pub fn route(active: bool, event: &Event) -> (r: Route)
    ensures
        r == route_spec(active, *event),
{
    let ends = match event {
        Event::StateChanged(st) => st.ends_session(),
        _ => false,
    };
    if ends {
        if active {
            Route::Teardown
        } else {
            Route::Ignore
        }
    } else if active {
        Route::Forward
    } else {
        Route::Start
    }
}

/// A stop always leaves no session running, and a token that arrives
/// afterwards starts a fresh session.
pub proof fn lemma_stop_then_fresh_session(active: bool, st: PowerampState, tok: String)
    requires
        st.ends_session_spec(),
    ensures
        !active_after(active, route_spec(active, Event::StateChanged(st))),
        route_spec(
            active_after(active, route_spec(active, Event::StateChanged(st))),
            Event::SetToken(tok),
        ) == Route::Start,
{
}

/// The state of one listening session, owned by its worker.
pub struct Session {
    pub payload: Payload,
    pub token: String,
    pub timer: Timer,
}

impl Session {
    pub open spec fn wf(&self) -> bool {
        self.timer.wf() && self.payload.wf()
    }

    /// A session with no track yet, playing since `now_ms`.
    pub fn new(token: String, now_ms: u64) -> (r: Session)
        ensures
            r.wf(),
            r.token == token,
            r.payload.listened_at is None,
            r.payload.track_metadata.is_blank(),
            r.timer == (Timer {
                scrobble: false,
                timeout: false,
                paused: false,
                deadline_ms: now_ms,
                pause_started_ms: now_ms,
            }),
    {
        Session {
            payload: Payload { listened_at: None, track_metadata: TrackMetadata::new(0) },
            token,
            timer: Timer {
                scrobble: false,
                timeout: false,
                paused: false,
                deadline_ms: now_ms,
                pause_started_ms: now_ms,
            },
        }
    }

    /// The instant the worker waits until, if the deadline is armed.
    pub fn wake_at(&self) -> (r: Option<u64>)
        ensures
            r == if self.timer.timeout { Some(self.timer.deadline_ms) } else { None },
    {
        if self.timer.timeout {
            Some(self.timer.deadline_ms)
        } else {
            None
        }
    }

    /// Handles one event at `now_ms` and says what to do next.
    pub fn handle_event(&mut self, event: Event, now_ms: u64) -> (r: Action)
        requires
            old(self).wf(),
        ensures
            final(self).wf(),
            final(self).timer == timer_after(old(self).timer, event, now_ms),
            r == action_after(event),
            final(self).token@ == match event {
                Event::SetToken(tok) => tok@,
                _ => old(self).token@,
            },
            final(self).payload.track_metadata == match event {
                Event::TrackChanged(md, _, _, _) => md,
                _ => old(self).payload.track_metadata,
            },
            final(self).payload.listened_at == if r is Submit {
                None
            } else {
                old(self).payload.listened_at
            },
    {
        match event {
            Event::TrackChanged(md, pos, at, eligible) => {
                let duration_ms = md.additional_info.duration_ms;
                self.payload.track_metadata = md;
                if !eligible {
                    self.timer.scrobble = false;
                    self.timer.timeout = false;
                    return Action::Idle;
                }
                match remaining_wait(duration_ms, pos, 1) {
                    None => {
                        self.timer.scrobble = false;
                        self.timer.timeout = false;
                        Action::Idle
                    },
                    Some(w) => {
                        self.timer.scrobble = true;
                        self.timer.timeout = !self.timer.paused;
                        self.timer.deadline_ms = add_saturating(at, w);
                        if self.timer.paused {
                            self.timer.pause_started_ms = at;
                        }
                        self.payload.listened_at = None;
                        Action::Submit(ListenType::PlayingNow)
                    },
                }
            },
            Event::StateChanged(st) => match st {
                PowerampState::Paused => {
                    if !self.timer.paused {
                        self.timer.paused = true;
                        self.timer.timeout = false;
                        self.timer.pause_started_ms = now_ms;
                    }
                    Action::Idle
                },
                PowerampState::Playing => {
                    if self.timer.paused {
                        let start = self.timer.pause_started_ms;
                        let gap: u64 = if now_ms >= start {
                            now_ms - start
                        } else {
                            0
                        };
                        self.timer.deadline_ms = add_saturating(self.timer.deadline_ms, gap);
                    }
                    self.timer.paused = false;
                    self.timer.timeout = self.timer.scrobble;
                    Action::Idle
                },
                PowerampState::NoState | PowerampState::Stopped => {
                    self.timer.scrobble = false;
                    self.timer.timeout = false;
                    Action::Terminate
                },
            },
            Event::SetToken(token) => {
                self.token = token;
                Action::Idle
            },
        }
    }

    /// Handles the deadline passing with no event pending, at Unix time
    /// `unix_now_s`: a qualifying track is stamped and submitted once, and
    /// the deadline is disarmed.
    pub fn on_deadline(&mut self, unix_now_s: u64) -> (r: Action)
        requires
            old(self).wf(),
        ensures
            final(self).wf(),
            final(self).timer == old(self).timer.disarmed(),
            r == fire_action(old(self).timer),
            final(self).token == old(self).token,
            final(self).payload.track_metadata == old(self).payload.track_metadata,
            final(self).payload.listened_at == if old(self).timer.scrobble {
                stamp(unix_now_s)
            } else {
                old(self).payload.listened_at
            },
    {
        let fired = self.timer.scrobble;
        if fired {
            self.payload.listened_at = if unix_now_s == 0 {
                None
            } else {
                Some(unix_now_s)
            };
        }
        self.timer.scrobble = false;
        self.timer.timeout = false;
        if fired {
            Action::Submit(ListenType::Single)
        } else {
            Action::Idle
        }
    }
}

} // verus!
