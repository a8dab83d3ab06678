//! Press-pattern detection: single press with bounce guard, double press
//! within a window, and long press.
//!
//! Time is a count of milliseconds on a monotonic clock that the caller reads.

use vstd::prelude::*;

verus! {

/// A press that follows a release by no more than this many milliseconds is
/// taken for contact bounce and ignored.
pub const BOUNCE_GUARD_MS: u64 = 50;

/// How a mapping turns the level of its source button into firing ticks.
#[derive(Clone, Copy, Debug, PartialEq, Eq, Structural)]
pub enum CheckMode {
    Single,
    Double,
    Long,
}

impl Default for CheckMode {
    fn default() -> (mode: Self)
        ensures
            mode == CheckMode::Single,
    {
        CheckMode::Single
    }
}

/// What a detector remembers between ticks for one mapping.
#[derive(Clone, Copy, Debug)]
pub struct ButtonCheckState {
    /// When the current or latest press began.
    pub last_press_time: Option<u64>,
    /// When the latest release was seen.
    pub last_release_time: Option<u64>,
    /// Whether the current hold has already fired as a long press.
    pub long_press_triggered: bool,
    /// Whether a single press waits for a possible second one.
    pub single_press_pending: bool,
    /// Whether the current pattern has already fired as a double press.
    pub double_press_triggered: bool,
    /// Press edges counted in the current pattern.
    pub press_count: u32,
    /// Release edges counted in the current pattern.
    pub release_count: u32,
    /// The level seen at the previous tick that looked at edges.
    pub last_button_state: bool,
    /// When the first press of the current pattern began.
    pub first_press_time: Option<u64>,
}

impl ButtonCheckState {
    /// The state of a detector that has seen nothing yet.
    pub open spec fn fresh() -> ButtonCheckState {
        ButtonCheckState {
            last_press_time: None,
            last_release_time: None,
            long_press_triggered: false,
            single_press_pending: false,
            double_press_triggered: false,
            press_count: 0,
            release_count: 0,
            last_button_state: false,
            first_press_time: None,
        }
    }
}

impl Default for ButtonCheckState {
    fn default() -> (state: Self)
        ensures
            state == ButtonCheckState::fresh(),
    {
        ButtonCheckState {
            last_press_time: None,
            last_release_time: None,
            long_press_triggered: false,
            single_press_pending: false,
            double_press_triggered: false,
            press_count: 0,
            release_count: 0,
            last_button_state: false,
            first_press_time: None,
        }
    }
}

/// Milliseconds from `then` to `now`, zero where `then` is the later one.
pub open spec fn elapsed(now: u64, then: u64) -> int {
    if now >= then {
        now - then
    } else {
        0
    }
}

/// A counter one higher, staying at the largest value once it is reached.
pub open spec fn bump(count: u32) -> u32 {
    if count < u32::MAX {
        (count + 1) as u32
    } else {
        count
    }
}

/// The state with the double-press pattern cleared: both counters, the
/// pattern flags and the time of the first press go back together.
pub open spec fn cleared_pattern(s: ButtonCheckState) -> ButtonCheckState {
    ButtonCheckState {
        press_count: 0,
        release_count: 0,
        double_press_triggered: false,
        first_press_time: None,
        single_press_pending: false,
        ..s
    }
}

/// Whether a double-press pattern is over: its window has passed, or it has
/// fired and both presses were released.
pub open spec fn pattern_over(s: ButtonCheckState, now: u64, timeout: u64) -> bool {
    s.first_press_time is Some && (elapsed(now, s.first_press_time->0) > timeout || (s.press_count
        >= 2 && s.release_count >= 2 && s.double_press_triggered))
}

/// The state at the end of a double-press tick that did not fire.
pub open spec fn settle(s: ButtonCheckState, now: u64, timeout: u64) -> ButtonCheckState {
    if pattern_over(s, now, timeout) {
        cleared_pattern(s)
    } else {
        s
    }
}

/// One tick of the single-press detector: fires on a press that is the first
/// ever or follows a release by more than the bounce guard.
pub open spec fn single_step(pressed: bool, s: ButtonCheckState, now: u64) -> (
    ButtonCheckState,
    bool,
) {
    if pressed {
        if s.last_press_time is None || (s.last_release_time is Some && elapsed(
            now,
            s.last_release_time->0,
        ) > BOUNCE_GUARD_MS) {
            (ButtonCheckState { last_press_time: Some(now), last_release_time: None, ..s }, true)
        } else {
            (s, false)
        }
    } else if s.last_press_time is Some {
        (ButtonCheckState { last_release_time: Some(now), ..s }, false)
    } else {
        (s, false)
    }
}

/// One tick of the double-press detector with the given window.
pub open spec fn double_step(pressed: bool, window: u64, s: ButtonCheckState, now: u64) -> (
    ButtonCheckState,
    bool,
) {
    if pressed != s.last_button_state {
        if pressed {
            let count = bump(s.press_count);
            let first = if count == 1 {
                Some(now)
            } else {
                s.first_press_time
            };
            let counted = ButtonCheckState {
                press_count: count,
                last_press_time: Some(now),
                first_press_time: first,
                ..s
            };
            let second_press = count >= 2 && first is Some;
            if second_press && elapsed(now, first->0) <= window && !s.double_press_triggered {
                (ButtonCheckState { double_press_triggered: true, ..counted }, true)
            } else {
                let kept = if second_press && elapsed(now, first->0) > window {
                    cleared_pattern(counted)
                } else {
                    counted
                };
                (settle(ButtonCheckState { last_button_state: true, ..kept }, now, window), false)
            }
        } else {
            (
                settle(
                    ButtonCheckState {
                        release_count: bump(s.release_count),
                        last_release_time: Some(now),
                        last_button_state: false,
                        ..s
                    },
                    now,
                    window,
                ),
                false,
            )
        }
    } else if pressed && s.first_press_time is Some && elapsed(now, s.first_press_time->0)
        > window {
        (settle(cleared_pattern(s), now, window), false)
    } else {
        (settle(s, now, window), false)
    }
}

/// One tick of the long-press detector: fires on every tick at which the
/// button has been held for at least `duration`.
pub open spec fn long_step(pressed: bool, duration: u64, s: ButtonCheckState, now: u64) -> (
    ButtonCheckState,
    bool,
) {
    if pressed {
        if s.last_press_time is None {
            (ButtonCheckState { last_press_time: Some(now), long_press_triggered: false, ..s }, false)
        } else if elapsed(now, s.last_press_time->0) >= duration {
            (ButtonCheckState { long_press_triggered: true, ..s }, true)
        } else {
            (s, false)
        }
    } else {
        (ButtonCheckState { last_press_time: None, long_press_triggered: false, ..s }, false)
    }
}

/// One tick of the detector chosen by `mode`: the state after it and whether
/// the mapping may fire at this tick.
pub open spec fn check_step(
    pressed: bool,
    mode: CheckMode,
    param: u64,
    s: ButtonCheckState,
    now: u64,
) -> (ButtonCheckState, bool) {
    match mode {
        CheckMode::Single => single_step(pressed, s, now),
        CheckMode::Double => double_step(pressed, param, s, now),
        CheckMode::Long => long_step(pressed, param, s, now),
    }
}

fn elapsed_ms(now: u64, then: u64) -> (ms: u64)
    ensures
        ms == elapsed(now, then),
{
    if now >= then {
        now - then
    } else {
        0
    }
}

fn bump_count(count: u32) -> (next: u32)
    ensures
        next == bump(count),
{
    if count < u32::MAX {
        count + 1
    } else {
        count
    }
}

/// Clears the double-press pattern of `check_state`.
pub fn reset_double_click_state(check_state: &mut ButtonCheckState)
    ensures
        *final(check_state) == cleared_pattern(*old(check_state)),
{
    check_state.press_count = 0;
    check_state.release_count = 0;
    check_state.double_press_triggered = false;
    check_state.first_press_time = None;
    check_state.single_press_pending = false;
}

/// Says whether the double-press pattern of `check_state` is over at `now`.
pub fn should_reset_state(check_state: &ButtonCheckState, now: u64, timeout: u64) -> (over: bool)
    ensures
        over == pattern_over(*check_state, now, timeout),
{
    match check_state.first_press_time {
        Some(first_press_time) => {
            elapsed_ms(now, first_press_time) > timeout || (check_state.press_count >= 2
                && check_state.release_count >= 2 && check_state.double_press_triggered)
        },
        None => false,
    }
}

fn check_single(button_is_pressed: bool, check_state: &mut ButtonCheckState, now: u64) -> (fired:
    bool)
    ensures
        (*final(check_state), fired) == single_step(button_is_pressed, *old(check_state), now),
{
    if button_is_pressed {
        let rearmed = match check_state.last_release_time {
            Some(released) => elapsed_ms(now, released) > BOUNCE_GUARD_MS,
            None => false,
        };
        if check_state.last_press_time.is_none() || rearmed {
            check_state.last_press_time = Some(now);
            check_state.last_release_time = None;
            return true;
        }
    } else if check_state.last_press_time.is_some() {
        check_state.last_release_time = Some(now);
    }
    false
}

fn check_double(
    button_is_pressed: bool,
    window: u64,
    check_state: &mut ButtonCheckState,
    now: u64,
) -> (fired: bool)
    ensures
        (*final(check_state), fired) == double_step(
            button_is_pressed,
            window,
            *old(check_state),
            now,
        ),
{
    if button_is_pressed != check_state.last_button_state {
        if button_is_pressed {
            check_state.press_count = bump_count(check_state.press_count);
            check_state.last_press_time = Some(now);
            if check_state.press_count == 1 {
                check_state.first_press_time = Some(now);
            }
            if check_state.press_count >= 2 {
                if let Some(first_press_time) = check_state.first_press_time {
                    if elapsed_ms(now, first_press_time) <= window {
                        if !check_state.double_press_triggered {
                            check_state.double_press_triggered = true;
                            return true;
                        }
                    } else {
                        reset_double_click_state(check_state);
                    }
                }
            }
        } else {
            check_state.release_count = bump_count(check_state.release_count);
            check_state.last_release_time = Some(now);
        }
        check_state.last_button_state = button_is_pressed;
    } else if button_is_pressed {
        if let Some(first_press_time) = check_state.first_press_time {
            if elapsed_ms(now, first_press_time) > window {
                reset_double_click_state(check_state);
            }
        }
    }
    if should_reset_state(check_state, now, window) {
        reset_double_click_state(check_state);
    }
    false
}

fn check_long(
    button_is_pressed: bool,
    duration: u64,
    check_state: &mut ButtonCheckState,
    now: u64,
) -> (fired: bool)
    ensures
        (*final(check_state), fired) == long_step(
            button_is_pressed,
            duration,
            *old(check_state),
            now,
        ),
{
    if button_is_pressed {
        match check_state.last_press_time {
            None => {
                check_state.last_press_time = Some(now);
                check_state.long_press_triggered = false;
            },
            Some(pressed_at) => {
                if elapsed_ms(now, pressed_at) >= duration {
                    check_state.long_press_triggered = true;
                    return true;
                }
            },
        }
    } else {
        check_state.last_press_time = None;
        check_state.long_press_triggered = false;
    }
    false
}

/// Runs one tick of the press-pattern detector of a mapping.
///
/// `button_is_pressed` is the level of the source at `now`, `check_mode_param`
/// the window of a double press or the duration of a long press. The result
/// says whether the mapping may fire at this tick.
pub fn check_button_press(
    button_is_pressed: bool,
    check_mode: CheckMode,
    check_mode_param: u64,
    check_state: &mut ButtonCheckState,
    now: u64,
) -> (fired: bool)
    ensures
        (*final(check_state), fired) == check_step(
            button_is_pressed,
            check_mode,
            check_mode_param,
            *old(check_state),
            now,
        ),
{
    match check_mode {
        CheckMode::Single => check_single(button_is_pressed, check_state, now),
        CheckMode::Double => check_double(button_is_pressed, check_mode_param, check_state, now),
        CheckMode::Long => check_long(button_is_pressed, check_mode_param, check_state, now),
    }
}

/// The state of a detector after the given ticks, each a level and a time,
/// in order.
pub open spec fn state_after(
    mode: CheckMode,
    param: u64,
    s: ButtonCheckState,
    ticks: Seq<(bool, u64)>,
) -> ButtonCheckState
    decreases ticks.len(),
{
    if ticks.len() == 0 {
        s
    } else {
        check_step(
            ticks.last().0,
            mode,
            param,
            state_after(mode, param, s, ticks.drop_last()),
            ticks.last().1,
        ).0
    }
}

/// Whether the detector fires at tick `i` of the given ticks.
pub open spec fn fires_at(
    mode: CheckMode,
    param: u64,
    s: ButtonCheckState,
    ticks: Seq<(bool, u64)>,
    i: int,
) -> bool {
    check_step(ticks[i].0, mode, param, state_after(mode, param, s, ticks.take(i)), ticks[i].1).1
}

/// Whether every one of the ticks sees the button pressed.
pub open spec fn all_pressed(ticks: Seq<(bool, u64)>) -> bool {
    forall|i: int| 0 <= i < ticks.len() ==> (#[trigger] ticks[i]).0
}

proof fn lemma_take_drop_last(ticks: Seq<(bool, u64)>, i: int)
    requires
        0 < i <= ticks.len(),
    ensures
        ticks.take(i).drop_last() == ticks.take(i - 1),
        ticks.take(i).last() == ticks[i - 1],
{
    assert(ticks.take(i).drop_last() =~= ticks.take(i - 1));
}

proof fn lemma_single_held_state(
    param: u64,
    s: ButtonCheckState,
    ticks: Seq<(bool, u64)>,
    n: int,
)
    requires
        s.last_press_time is None,
        all_pressed(ticks),
        0 < n <= ticks.len(),
    ensures
        state_after(CheckMode::Single, param, s, ticks.take(n)).last_press_time is Some,
        state_after(CheckMode::Single, param, s, ticks.take(n)).last_release_time is None,
    decreases n,
{
    lemma_take_drop_last(ticks, n);
    if n > 1 {
        lemma_single_held_state(param, s, ticks, n - 1);
    } else {
        assert(ticks.take(0).len() == 0);
    }
    assert(ticks[n - 1].0);
}

/// A single-press detector that has seen no press yet fires at the first
/// tick of a hold and at no later tick of it, however long the hold lasts.
pub proof fn lemma_single_press_fires_once(
    param: u64,
    s: ButtonCheckState,
    ticks: Seq<(bool, u64)>,
    i: int,
)
    requires
        s.last_press_time is None,
        all_pressed(ticks),
        0 <= i < ticks.len(),
    ensures
        fires_at(CheckMode::Single, param, s, ticks, i) == (i == 0),
{
    assert(ticks[i].0);
    if i == 0 {
        assert(ticks.take(0).len() == 0);
    } else {
        lemma_single_held_state(param, s, ticks, i);
    }
}

proof fn lemma_long_held_state(
    duration: u64,
    s: ButtonCheckState,
    ticks: Seq<(bool, u64)>,
    n: int,
)
    requires
        s.last_press_time is None,
        all_pressed(ticks),
        0 < n <= ticks.len(),
    ensures
        state_after(CheckMode::Long, duration, s, ticks.take(n)).last_press_time == Some(
            ticks[0].1,
        ),
    decreases n,
{
    lemma_take_drop_last(ticks, n);
    if n > 1 {
        lemma_long_held_state(duration, s, ticks, n - 1);
    } else {
        assert(ticks.take(0).len() == 0);
    }
    assert(ticks[n - 1].0);
}

/// A long-press detector does not fire at the tick that begins a hold, and
/// fires at every later tick of the hold at which the button has been down
/// for at least the duration, and at no other.
pub proof fn lemma_long_press_fires_while_held(
    duration: u64,
    s: ButtonCheckState,
    ticks: Seq<(bool, u64)>,
    i: int,
)
    requires
        s.last_press_time is None,
        all_pressed(ticks),
        0 <= i < ticks.len(),
    ensures
        fires_at(CheckMode::Long, duration, s, ticks, i) == (i > 0 && elapsed(
            ticks[i].1,
            ticks[0].1,
        ) >= duration),
{
    assert(ticks[i].0);
    if i == 0 {
        assert(ticks.take(0).len() == 0);
    } else {
        lemma_long_held_state(duration, s, ticks, i);
    }
}

/// A release ends a long press: the next hold is timed from its own start.
pub proof fn lemma_long_press_release_resets(duration: u64, s: ButtonCheckState, now: u64)
    ensures
        !long_step(false, duration, s, now).1,
        long_step(false, duration, s, now).0.last_press_time is None,
        !long_step(false, duration, s, now).0.long_press_triggered,
{
}

/// A fresh double-press detector that sees a press at `t0`, a release at
/// `t1` and a second press at `t2` fires at the second press if and only if
/// it comes within the window of the first, and at no other of these ticks;
/// whatever it sees at the tick after that, it does not fire again.
pub proof fn lemma_double_press_fires_once(
    window: u64,
    t0: u64,
    t1: u64,
    t2: u64,
    t3: u64,
    next_level: bool,
)
    requires
        t0 <= t1 <= t2 <= t3,
    ensures
        ({
            let ticks = seq![(true, t0), (false, t1), (true, t2), (next_level, t3)];
            let s = ButtonCheckState::fresh();
            &&& !fires_at(CheckMode::Double, window, s, ticks, 0)
            &&& !fires_at(CheckMode::Double, window, s, ticks, 1)
            &&& fires_at(CheckMode::Double, window, s, ticks, 2) == (t2 - t0 <= window)
            &&& !fires_at(CheckMode::Double, window, s, ticks, 3)
        }),
{
    let ticks = seq![(true, t0), (false, t1), (true, t2), (next_level, t3)];
    let s = ButtonCheckState::fresh();
    let mode = CheckMode::Double;
    assert(ticks.take(0).len() == 0);
    let s0 = state_after(mode, window, s, ticks.take(0));
    assert(s0 == s);
    lemma_take_drop_last(ticks, 1);
    let s1 = state_after(mode, window, s, ticks.take(1));
    assert(s1 == double_step(true, window, s0, t0).0);
    lemma_take_drop_last(ticks, 2);
    let s2 = state_after(mode, window, s, ticks.take(2));
    assert(s2 == double_step(false, window, s1, t1).0);
    lemma_take_drop_last(ticks, 3);
    let s3 = state_after(mode, window, s, ticks.take(3));
    assert(s3 == double_step(true, window, s2, t2).0);
}

/// A double-press pattern that has fired does not fire again before it is
/// cleared.
pub proof fn lemma_double_press_no_refire(
    pressed: bool,
    window: u64,
    s: ButtonCheckState,
    now: u64,
)
    requires
        s.double_press_triggered,
    ensures
        !double_step(pressed, window, s, now).1,
{
}

} // verus!
