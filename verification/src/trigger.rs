//! Trigger policy of a mapping: how often it fires again while its source
//! stays active.
//!
//! Intervals are milliseconds. The acceleration factor is held in
//! thousandths, so 800 shortens the interval to four fifths at each fire.

use vstd::prelude::*;
use crate::press::elapsed;

verus! {

/// The acceleration factor that leaves an interval as it is.
pub const NO_ACCELERATION: u64 = 1000;

/// Repeat state of one mapping.
#[derive(Clone, Copy, Debug)]
pub struct TriggerState {
    /// Continuous repeat while active; otherwise press on the rising edge and
    /// release on the falling edge.
    pub continually_trigger: bool,
    /// Current interval between fires.
    pub interval: u64,
    /// Interval that a reset goes back to.
    pub initial_interval: u64,
    /// Interval below which acceleration does not go.
    pub min_interval: u64,
    /// Factor applied to the interval at each fire, in thousandths.
    pub acceleration: u64,
    /// Time of the latest fire.
    pub last_trigger: u64,
    /// Level last reported in edge-triggered mode.
    pub is_pressed: bool,
}

/// The interval after one fire: the current one times the acceleration
/// factor, rounded down, and not below the minimum.
pub open spec fn accelerated(interval: u64, acceleration: u64, min_interval: u64) -> u64 {
    let scaled = (interval as int * acceleration as int) / 1000;
    if scaled < min_interval as int {
        min_interval
    } else if scaled > u64::MAX as int {
        u64::MAX
    } else {
        scaled as u64
    }
}

/// The interval after `fires` fires in a row without a reset.
pub open spec fn interval_after(
    interval: u64,
    acceleration: u64,
    min_interval: u64,
    fires: nat,
) -> u64
    decreases fires,
{
    if fires == 0 {
        interval
    } else {
        accelerated(
            interval_after(interval, acceleration, min_interval, (fires - 1) as nat),
            acceleration,
            min_interval,
        )
    }
}

impl TriggerState {
    /// The state that `new` gives.
    pub open spec fn initial(
        initial_interval: u64,
        min_interval: u64,
        acceleration: u64,
        now: u64,
    ) -> TriggerState {
        TriggerState {
            continually_trigger: false,
            interval: initial_interval,
            initial_interval,
            min_interval,
            acceleration,
            last_trigger: now,
            is_pressed: false,
        }
    }

    /// One consultation of the policy: the state after it and whether the
    /// mapping fires.
    pub open spec fn step(self, button_is_pressed: bool, now: u64) -> (TriggerState, bool) {
        if self.continually_trigger {
            if button_is_pressed && elapsed(now, self.last_trigger) >= self.interval {
                (
                    TriggerState {
                        interval: accelerated(self.interval, self.acceleration, self.min_interval),
                        last_trigger: now,
                        ..self
                    },
                    true,
                )
            } else {
                (self, false)
            }
        } else if button_is_pressed != self.is_pressed {
            (TriggerState { is_pressed: button_is_pressed, ..self }, true)
        } else {
            (self, false)
        }
    }

    /// An edge-triggered policy with the given intervals and acceleration,
    /// created at `now`.
    pub fn new(initial_interval: u64, min_interval: u64, acceleration: u64, now: u64) -> (state:
        Self)
        ensures
            state == TriggerState::initial(initial_interval, min_interval, acceleration, now),
    {
        TriggerState {
            continually_trigger: false,
            interval: initial_interval,
            initial_interval,
            min_interval,
            acceleration,
            last_trigger: now,
            is_pressed: false,
        }
    }

    /// Consults the policy at `now` and says whether the mapping fires.
    pub fn should_trigger(&mut self, button_is_pressed: bool, now: u64) -> (fired: bool)
        ensures
            (*final(self), fired) == old(self).step(button_is_pressed, now),
    {
        if self.continually_trigger {
            let since = if now >= self.last_trigger {
                now - self.last_trigger
            } else {
                0
            };
            if button_is_pressed && since >= self.interval {
                self.interval = accelerate(self.interval, self.acceleration, self.min_interval);
                self.last_trigger = now;
                true
            } else {
                false
            }
        } else if button_is_pressed != self.is_pressed {
            self.is_pressed = button_is_pressed;
            true
        } else {
            false
        }
    }

    /// Puts the interval back to the initial one.
    pub fn reset(&mut self)
        ensures
            *final(self) == (TriggerState { interval: old(self).initial_interval, ..*old(self) }),
    {
        self.interval = self.initial_interval;
    }

    /// The level last reported in edge-triggered mode.
    pub fn is_key_pressed(&self) -> (pressed: bool)
        ensures
            pressed == self.is_pressed,
    {
        self.is_pressed
    }

    /// Sets the level last reported in edge-triggered mode.
    pub fn set_key_pressed(&mut self, pressed: bool)
        ensures
            *final(self) == (TriggerState { is_pressed: pressed, ..*old(self) }),
    {
        self.is_pressed = pressed;
    }
}

impl Default for TriggerState {
    fn default() -> (state: Self)
        ensures
            state == TriggerState::initial(300, 100, 800, 0),
    {
        TriggerState::new(300, 100, 800, 0)
    }
}

/// Computes the interval after one fire.
pub fn accelerate(interval: u64, acceleration: u64, min_interval: u64) -> (next: u64)
    ensures
        next == accelerated(interval, acceleration, min_interval),
{
    assert(interval as int * acceleration as int <= u64::MAX as int * u64::MAX as int)
        by (nonlinear_arith)
        requires
            0 <= interval <= u64::MAX,
            0 <= acceleration <= u64::MAX,
    ;
    let product: u128 = (interval as u128) * (acceleration as u128);
    let scaled: u128 = product / 1000;
    if scaled < min_interval as u128 {
        min_interval
    } else if scaled > u64::MAX as u128 {
        u64::MAX
    } else {
        scaled as u64
    }
}

/// A fire never takes the interval below the minimum.
pub proof fn lemma_accelerated_floor(interval: u64, acceleration: u64, min_interval: u64)
    ensures
        accelerated(interval, acceleration, min_interval) >= min_interval,
{
}

/// With a factor of at most one, a fire never lengthens an interval that is
/// at or above the minimum.
pub proof fn lemma_accelerated_non_increasing(interval: u64, acceleration: u64, min_interval: u64)
    requires
        acceleration <= NO_ACCELERATION,
        min_interval <= interval,
    ensures
        accelerated(interval, acceleration, min_interval) <= interval,
{
    assert((interval as int * acceleration as int) / 1000 <= interval as int)
        by (nonlinear_arith)
        requires
            0 <= interval,
            0 <= acceleration <= 1000,
    ;
}

/// With a factor below one, a fire strictly shortens an interval that is
/// above the minimum, and leaves one that is at the minimum there.
pub proof fn lemma_accelerated_strict(interval: u64, acceleration: u64, min_interval: u64)
    requires
        acceleration < NO_ACCELERATION,
        min_interval <= interval,
    ensures
        interval > min_interval ==> accelerated(interval, acceleration, min_interval) < interval,
        interval == min_interval ==> accelerated(interval, acceleration, min_interval)
            == min_interval,
{
    assert(interval > 0 ==> (interval as int * acceleration as int) / 1000 < interval as int)
        by (nonlinear_arith)
        requires
            0 <= interval,
            0 <= acceleration < 1000,
    ;
    assert((interval as int * acceleration as int) / 1000 <= interval as int)
        by (nonlinear_arith)
        requires
            0 <= interval,
            0 <= acceleration < 1000,
    ;
}

/// Under continuous repeat with a factor below one, the sequence of
/// intervals started at or above the minimum strictly decreases until it
/// reaches the minimum, reaches it after at most as many fires as the start
/// lies above it, and stays there.
pub proof fn lemma_interval_sequence(
    interval: u64,
    acceleration: u64,
    min_interval: u64,
    fires: nat,
)
    requires
        acceleration < NO_ACCELERATION,
        min_interval <= interval,
    ensures
        min_interval <= interval_after(interval, acceleration, min_interval, fires) <= interval,
        interval_after(interval, acceleration, min_interval, fires) > min_interval
            ==> interval_after(interval, acceleration, min_interval, fires + 1) < interval_after(
            interval,
            acceleration,
            min_interval,
            fires,
        ),
        interval_after(interval, acceleration, min_interval, fires) == min_interval
            ==> interval_after(interval, acceleration, min_interval, fires + 1) == min_interval,
        interval_after(interval, acceleration, min_interval, fires) + fires <= interval
            || interval_after(interval, acceleration, min_interval, fires) == min_interval,
        fires >= interval - min_interval ==> interval_after(
            interval,
            acceleration,
            min_interval,
            fires,
        ) == min_interval,
    decreases fires,
{
    let current = interval_after(interval, acceleration, min_interval, fires);
    if fires > 0 {
        let before = (fires - 1) as nat;
        lemma_interval_sequence(interval, acceleration, min_interval, before);
        lemma_accelerated_strict(
            interval_after(interval, acceleration, min_interval, before),
            acceleration,
            min_interval,
        );
    }
    lemma_accelerated_strict(current, acceleration, min_interval);
    assert(interval_after(interval, acceleration, min_interval, fires + 1) == accelerated(
        current,
        acceleration,
        min_interval,
    ));
}

} // verus!
