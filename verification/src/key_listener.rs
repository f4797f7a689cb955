//! Repeated-key gesture detection: recognizing `count` presses of a target
//! key, each within `interval_ms` of the previous one, from a raw stream of
//! timestamped key presses.
//!
//! The detector is a small state machine stepped once per key press.  A
//! press of any other key resets the accumulated run to zero; a press of the
//! target key after too long a gap starts a fresh run of one.  When the run
//! reaches the configured count the detector reports a trigger and resets,
//! so the gesture is one-shot.

use vstd::prelude::*;
use crate::textops::str_eq;

verus! {

/// Configuration of the repeated-key gesture.
#[derive(Debug, Clone)]
pub struct ConsecutiveKeyConfig {
    /// The key that must be pressed repeatedly.
    pub key: String,
    /// How many presses are needed.
    pub count: u8,
    /// Largest allowed gap between consecutive presses, in milliseconds.
    pub interval_ms: u64,
}

impl Default for ConsecutiveKeyConfig {
    /// Three presses of the space key, at most 300 ms apart.
    fn default() -> (r: Self)
        ensures
            r.key@ == " "@,
            r.count == 3,
            r.interval_ms == 300,
    {
        ConsecutiveKeyConfig { key: String::from_str(" "), count: 3, interval_ms: 300 }
    }
}

/// Mutable state of the detector: the time of the press that ended the
/// current run, and the length of that run.  `last_press_ms` is `None`
/// exactly when the run is empty.
#[derive(Debug, Clone, PartialEq, Eq, Structural)]
pub struct ConsecutiveState {
    /// Timestamp of the latest press of the current run.
    pub last_press_ms: Option<u64>,
    /// Number of qualifying presses accumulated so far.
    pub press_count: u8,
}

impl Default for ConsecutiveState {
    /// The empty run.
    fn default() -> (r: Self)
        ensures
            r == initial_state(),
    {
        ConsecutiveState { last_press_ms: None, press_count: 0 }
    }
}

/// The state the detector starts in and returns to after a trigger.
pub open spec fn initial_state() -> ConsecutiveState {
    ConsecutiveState { last_press_ms: None, press_count: 0 }
}

/// A well-formed state never saturates the press counter, so one more press
/// can always be counted.
pub open spec fn state_wf(st: ConsecutiveState) -> bool {
    st.press_count < 255
}

/// Elapsed milliseconds from `last` to `now`, zero when the clock stepped
/// backwards, as a saturating monotonic-clock difference behaves.
pub open spec fn spec_gap(last: u64, now: u64) -> u64 {
    if now >= last {
        (now - last) as u64
    } else {
        0
    }
}

/// One step of the detector on a press of `key` at `now`: the new state and
/// whether the gesture triggered.
pub open spec fn spec_step(
    st: ConsecutiveState,
    tkey: Seq<char>,
    tcount: u8,
    interval: u64,
    key: Seq<char>,
    now: u64,
) -> (ConsecutiveState, bool) {
    if key == tkey {
        let c: u8 = match st.last_press_ms {
            Some(last) => if spec_gap(last, now) <= interval {
                (st.press_count + 1) as u8
            } else {
                1u8
            },
            None => 1u8,
        };
        if c >= tcount {
            (initial_state(), true)
        } else {
            (ConsecutiveState { last_press_ms: Some(now), press_count: c }, false)
        }
    } else {
        (initial_state(), false)
    }
}

/// Steps `state` on one key press; returns whether the gesture triggered.
/// Shared by the raw key listener and the hotkey manager.
pub fn gesture_step(
    state: &mut ConsecutiveState,
    tkey: &str,
    tcount: u8,
    interval_ms: u64,
    key: &str,
    now_ms: u64,
) -> (fired: bool)
    requires
        state_wf(*old(state)),
    ensures
        state_wf(*final(state)),
        (*final(state), fired) == spec_step(
            *old(state),
            tkey@,
            tcount,
            interval_ms,
            key@,
            now_ms,
        ),
{
    if str_eq(key, tkey) {
        let c: u8 = match state.last_press_ms {
            Some(last) => {
                let gap: u64 = if now_ms >= last {
                    now_ms - last
                } else {
                    0
                };
                if gap <= interval_ms {
                    state.press_count + 1
                } else {
                    1
                }
            },
            None => 1,
        };
        if c >= tcount {
            state.last_press_ms = None;
            state.press_count = 0;
            true
        } else {
            state.last_press_ms = Some(now_ms);
            state.press_count = c;
            false
        }
    } else {
        state.last_press_ms = None;
        state.press_count = 0;
        false
    }
}

/// The gesture detector the raw key listener drives: the configuration plus
/// the current run state.
#[derive(Debug, Clone)]
pub struct KeyGestureDetector {
    /// The configured target gesture.
    pub config: ConsecutiveKeyConfig,
    /// The current run.
    pub state: ConsecutiveState,
}

impl KeyGestureDetector {
    /// A detector for `config` with an empty run.
    pub fn new(config: ConsecutiveKeyConfig) -> (r: Self)
        ensures
            r.config == config,
            r.state == initial_state(),
    {
        KeyGestureDetector { config, state: ConsecutiveState::default() }
    }

    /// Feeds one raw key press to the detector.
    pub fn on_key_press(&mut self, key: &str, now_ms: u64) -> (fired: bool)
        requires
            state_wf(old(self).state),
        ensures
            final(self).config == old(self).config,
            state_wf(final(self).state),
            (final(self).state, fired) == spec_step(
                old(self).state,
                old(self).config.key@,
                old(self).config.count,
                old(self).config.interval_ms,
                key@,
                now_ms,
            ),
    {
        let tcount = self.config.count;
        let interval = self.config.interval_ms;
        let tkey = self.config.key.clone();
        gesture_step(&mut self.state, tkey.as_str(), tcount, interval, key, now_ms)
    }
}

/// One raw key press, as the specification-level detector sees it.
pub ghost struct PressEvent {
    /// The pressed key.
    pub key: Seq<char>,
    /// When it was pressed, in milliseconds.
    pub at_ms: u64,
}

/// The detector state after the first `n` events of `events` have been
/// processed from the initial state.
pub open spec fn detector_state_at(
    tkey: Seq<char>,
    tcount: u8,
    interval: u64,
    events: Seq<PressEvent>,
    n: int,
) -> ConsecutiveState
    decreases n,
{
    if n <= 0 {
        initial_state()
    } else {
        spec_step(
            detector_state_at(tkey, tcount, interval, events, n - 1),
            tkey,
            tcount,
            interval,
            events[n - 1].key,
            events[n - 1].at_ms,
        ).0
    }
}

/// Whether the detector triggers while processing event `i`.
pub open spec fn detector_fires_at(
    tkey: Seq<char>,
    tcount: u8,
    interval: u64,
    events: Seq<PressEvent>,
    i: int,
) -> bool {
    &&& 0 <= i < events.len()
    &&& spec_step(
        detector_state_at(tkey, tcount, interval, events, i),
        tkey,
        tcount,
        interval,
        events[i].key,
        events[i].at_ms,
    ).1
}

/// `count` consecutive presses of the target key end at event `i`, with
/// every adjacent gap inside the window at most `interval`.
pub open spec fn qualifying_window_at(
    events: Seq<PressEvent>,
    tkey: Seq<char>,
    tcount: u8,
    interval: u64,
    i: int,
) -> bool {
    &&& 0 <= i < events.len()
    &&& i >= tcount - 1
    &&& forall|j: int| i - tcount + 1 <= j <= i ==> events[j].key == tkey
    &&& forall|j: int|
        i - tcount + 2 <= j <= i ==> spec_gap(
            (#[trigger] events[j - 1]).at_ms,
            events[j].at_ms,
        ) <= interval
}

/// Length of the maximal qualifying run of target presses ending just
/// before position `n`.
pub open spec fn streak(
    events: Seq<PressEvent>,
    tkey: Seq<char>,
    interval: u64,
    n: int,
) -> int
    decreases n,
{
    if n <= 0 {
        0
    } else if events[n - 1].key != tkey {
        0
    } else if n >= 2 && events[n - 2].key == tkey && spec_gap(
        events[n - 2].at_ms,
        events[n - 1].at_ms,
    ) <= interval {
        streak(events, tkey, interval, n - 1) + 1
    } else {
        1
    }
}

/// The maximal run ending before `n` really is a run: its events all press
/// the target key and its internal gaps are within the interval.
proof fn lemma_streak_is_run(
    events: Seq<PressEvent>,
    tkey: Seq<char>,
    interval: u64,
    n: int,
)
    requires
        0 <= n <= events.len(),
    ensures
        0 <= streak(events, tkey, interval, n) <= n,
        forall|j: int|
            n - streak(events, tkey, interval, n) <= j < n ==> events[j].key == tkey,
        forall|j: int|
            n - streak(events, tkey, interval, n) + 1 <= j < n ==> spec_gap(
                (#[trigger] events[j - 1]).at_ms,
                events[j].at_ms,
            ) <= interval,
    decreases n,
{
    if n > 0 {
        lemma_streak_is_run(events, tkey, interval, n - 1);
    }
}

/// Conversely, any qualifying run of length `c` ending just before `n`
/// bounds the maximal streak from below.
proof fn lemma_run_bounds_streak(
    events: Seq<PressEvent>,
    tkey: Seq<char>,
    interval: u64,
    n: int,
    c: int,
)
    requires
        0 <= c <= n <= events.len(),
        forall|j: int| n - c <= j < n ==> events[j].key == tkey,
        forall|j: int|
            n - c + 1 <= j < n ==> spec_gap(
                (#[trigger] events[j - 1]).at_ms,
                events[j].at_ms,
            ) <= interval,
    ensures
        streak(events, tkey, interval, n) >= c,
    decreases c,
{
    lemma_streak_is_run(events, tkey, interval, n);
    if c >= 1 {
        lemma_run_bounds_streak(events, tkey, interval, n - 1, c - 1);
        assert(events[n - 1].key == tkey);
        if c >= 2 {
            assert(events[n - 2].key == tkey);
            assert(spec_gap(events[n - 2].at_ms, events[n - 1].at_ms) <= interval);
        }
    }
}

/// Running invariant of the detector: the stored run is consistent with the
/// event history, and its count never exceeds the maximal streak.
proof fn lemma_detector_inv(
    tkey: Seq<char>,
    tcount: u8,
    interval: u64,
    events: Seq<PressEvent>,
    n: int,
)
    requires
        tcount >= 1,
        0 <= n <= events.len(),
    ensures
        ({
            let st = detector_state_at(tkey, tcount, interval, events, n);
            &&& state_wf(st)
            &&& (st.press_count == 0 <==> st.last_press_ms is None)
            &&& (st.last_press_ms matches Some(t) ==> n >= 1 && t == events[n - 1].at_ms)
            &&& st.press_count < tcount
            &&& st.press_count <= streak(events, tkey, interval, n)
        }),
    decreases n,
{
    if n > 0 {
        lemma_detector_inv(tkey, tcount, interval, events, n - 1);
        lemma_streak_is_run(events, tkey, interval, n - 1);
    }
}

/// If the detector fires at event `i`, a qualifying window ends at `i`.
proof fn lemma_fire_implies_window(
    tkey: Seq<char>,
    tcount: u8,
    interval: u64,
    events: Seq<PressEvent>,
    i: int,
)
    requires
        tcount >= 1,
        detector_fires_at(tkey, tcount, interval, events, i),
    ensures
        qualifying_window_at(events, tkey, tcount, interval, i),
{
    lemma_detector_inv(tkey, tcount, interval, events, i);
    lemma_streak_is_run(events, tkey, interval, i);
    let st = detector_state_at(tkey, tcount, interval, events, i);
    // The step at `i` extends the stored run by this press, so the streak
    // through event `i` is at least the new count, which reached `tcount`.
    lemma_streak_is_run(events, tkey, interval, i + 1);
    match st.last_press_ms {
        Some(last) => {
            if spec_gap(last, events[i].at_ms) <= interval {
                lemma_run_bounds_streak(events, tkey, interval, i + 1, st.press_count + 1);
            } else {
                lemma_run_bounds_streak(events, tkey, interval, i + 1, 1);
            }
        },
        None => {
            lemma_run_bounds_streak(events, tkey, interval, i + 1, 1);
        },
    }
    let s = streak(events, tkey, interval, i + 1);
    assert(s >= tcount);
    // Restrict the maximal run to its last `tcount` events.
    assert forall|j: int| i - tcount + 1 <= j <= i implies events[j].key == tkey by {
        assert(i + 1 - s <= j < i + 1);
    }
    assert forall|j: int|
        i - tcount + 2 <= j <= i implies spec_gap(
            (#[trigger] events[j - 1]).at_ms,
            events[j].at_ms,
        ) <= interval by {
        assert(i + 1 - s + 1 <= j < i + 1);
    }
}

/// As long as the detector has never fired, its count equals the maximal
/// streak, which therefore stays below the trigger threshold.
proof fn lemma_no_fire_tracks_streak(
    tkey: Seq<char>,
    tcount: u8,
    interval: u64,
    events: Seq<PressEvent>,
    n: int,
)
    requires
        tcount >= 1,
        0 <= n <= events.len(),
        forall|j: int| 0 <= j < n ==> !detector_fires_at(tkey, tcount, interval, events, j),
    ensures
        detector_state_at(tkey, tcount, interval, events, n).press_count == streak(
            events,
            tkey,
            interval,
            n,
        ),
        streak(events, tkey, interval, n) < tcount,
    decreases n,
{
    lemma_detector_inv(tkey, tcount, interval, events, n);
    if n > 0 {
        lemma_no_fire_tracks_streak(tkey, tcount, interval, events, n - 1);
        lemma_detector_inv(tkey, tcount, interval, events, n - 1);
        assert(!detector_fires_at(tkey, tcount, interval, events, n - 1));
    }
}

/// Trigger law of the gesture detector: over any event stream, the detector
/// fires somewhere if and only if somewhere `count` consecutive presses of
/// the target key occur with every adjacent gap at most `interval`.
pub proof fn lemma_trigger_iff_qualifying_run(
    tkey: Seq<char>,
    tcount: u8,
    interval: u64,
    events: Seq<PressEvent>,
)
    requires
        tcount >= 1,
    ensures
        (exists|i: int| detector_fires_at(tkey, tcount, interval, events, i)) <==> (
        exists|i: int| qualifying_window_at(events, tkey, tcount, interval, i)),
{
    if exists|i: int| detector_fires_at(tkey, tcount, interval, events, i) {
        let i = choose|i: int| detector_fires_at(tkey, tcount, interval, events, i);
        lemma_fire_implies_window(tkey, tcount, interval, events, i);
        assert(qualifying_window_at(events, tkey, tcount, interval, i));
    }
    if exists|i: int| qualifying_window_at(events, tkey, tcount, interval, i) {
        let i = choose|i: int| qualifying_window_at(events, tkey, tcount, interval, i);
        if forall|j: int| 0 <= j <= i ==> !detector_fires_at(tkey, tcount, interval, events, j) {
            assert forall|j: int| 0 <= j < i + 1 implies !detector_fires_at(
                tkey,
                tcount,
                interval,
                events,
                j,
            ) by {}
            lemma_no_fire_tracks_streak(tkey, tcount, interval, events, i + 1);
            lemma_run_bounds_streak(events, tkey, interval, i + 1, tcount as int);
            assert(false);
        }
        let j = choose|j: int|
            0 <= j <= i && detector_fires_at(tkey, tcount, interval, events, j);
        assert(detector_fires_at(tkey, tcount, interval, events, j));
    }
}

} // verus!
