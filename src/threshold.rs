use vstd::prelude::*;

verus! {

/// Tracks up to this length (in milliseconds) use the "one second short of
/// the end" rule.
pub const SHORT_TRACK_MS: u64 = 40_000;

/// Upper bound of the qualifying playback time: four minutes.
pub const MAX_THRESHOLD_MS: u64 = 240_000;

/// Unpaused playback (milliseconds at normal speed) after which a track of
/// `duration_ms` counts as listened. Negative for tracks under one second.
pub open spec fn threshold_spec(duration_ms: int) -> int {
    if duration_ms <= SHORT_TRACK_MS {
        duration_ms - 1000
    } else if duration_ms / 2 < MAX_THRESHOLD_MS {
        duration_ms / 2
    } else {
        MAX_THRESHOLD_MS as int
    }
}

/// Time still to wait, in milliseconds of wall-clock time, for a track of
/// `duration_ms` first reported at `position_s` seconds and played at
/// `speed` times normal speed. `None` when the track cannot qualify any more:
/// the position is negative or already at the threshold, or the wait rounds
/// down to nothing.
pub open spec fn remaining_spec(duration_ms: int, position_s: int, speed: int) -> Option<int> {
    let left = threshold_spec(duration_ms) - position_s * 1000;
    if position_s < 0 || left <= 0 || left / speed == 0 {
        None
    } else {
        Some(left / speed)
    }
}

/// The qualifying playback time of a track, saturated at zero for tracks
/// shorter than one second.
pub fn scrobble_threshold(duration_ms: u64) -> (r: u64)
    ensures
        r as int == if threshold_spec(duration_ms as int) < 0 { 0 } else { threshold_spec(duration_ms as int) },
{
    if duration_ms <= SHORT_TRACK_MS {
        if duration_ms < 1000 {
            0
        } else {
            duration_ms - 1000
        }
    } else if duration_ms / 2 < MAX_THRESHOLD_MS {
        duration_ms / 2
    } else {
        MAX_THRESHOLD_MS
    }
}

/// Wall-clock milliseconds until a track qualifies, given its duration, the
/// position (seconds) at which it was reported and the playback speed.
pub fn remaining_wait(duration_ms: u64, position_s: i32, speed: u64) -> (r: Option<u64>)
    requires
        speed > 0,
    ensures
        match r {
            Some(w) => remaining_spec(duration_ms as int, position_s as int, speed as int) == Some(w as int),
            None => remaining_spec(duration_ms as int, position_s as int, speed as int) is None,
        },
{
    let threshold = scrobble_threshold(duration_ms);
    if position_s < 0 {
        return None;
    }
    let pos_ms: u64 = position_s as u64 * 1000;
    if pos_ms >= threshold {
        return None;
    }
    let left = threshold - pos_ms;
    let wait = left / speed;
    if wait == 0 {
        None
    } else {
        Some(wait)
    }
}

/// The qualifying time never exceeds four minutes; it grows with the
/// duration within each of the two rules (tracks of at most forty seconds,
/// and longer tracks), and is exactly four minutes from eight minutes on.
pub proof fn lemma_threshold_shape(d1: int, d2: int)
    requires
        0 <= d1 <= d2,
    ensures
        threshold_spec(d1) <= MAX_THRESHOLD_MS,
        d2 <= SHORT_TRACK_MS ==> threshold_spec(d1) <= threshold_spec(d2),
        d1 > SHORT_TRACK_MS ==> threshold_spec(d1) <= threshold_spec(d2),
        d1 >= 2 * MAX_THRESHOLD_MS ==> threshold_spec(d1) == MAX_THRESHOLD_MS,
        d1 <= SHORT_TRACK_MS ==> threshold_spec(d1) == d1 - 1000,
{
}

/// A track reported at or past its threshold never gets a wait.
pub proof fn lemma_no_wait_past_threshold(duration_ms: int, position_s: int, speed: int)
    requires
        speed > 0,
        position_s * 1000 >= threshold_spec(duration_ms),
    ensures
        remaining_spec(duration_ms, position_s, speed) is None,
{
}

/// Playing faster shortens the wait in proportion: at twice the speed the
/// wait is half as long, rounded down.
pub proof fn lemma_double_speed_halves(duration_ms: int, position_s: int)
    requires
        remaining_spec(duration_ms, position_s, 2) is Some,
    ensures
        remaining_spec(duration_ms, position_s, 1) is Some,
        remaining_spec(duration_ms, position_s, 2)->Some_0 == remaining_spec(duration_ms, position_s, 1)->Some_0 / 2,
{
}

} // verus!
