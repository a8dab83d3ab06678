//! The adaptive sampler: the rate at which a signal of a given frequency is
//! safely sampled.
//!
//! Frequencies and rates are thousandths of a hertz. Safety factors are
//! thousandths, so 10000 stands for ten times. The logarithm that the low
//! band needs is taken by the caller; see
//! [`AdaptiveSampler::low_band_quotient`].

use vstd::prelude::*;
use crate::fixed::{floor_sqrt, isqrt};
use crate::units::clamp_spec;

verus! {

/// Smallest frequency that the low band reckons with: a hundredth of a
/// hertz.
pub const FREQUENCY_FLOOR: u32 = 10;

/// The limits and factors of the sampler.
#[derive(Clone, Copy, Debug, PartialEq, Eq, Structural)]
pub struct AdaptiveSampler {
    pub max_sampling_rate: u64,
    pub min_sampling_rate: u64,
    pub base_safety_factor: u32,
    pub min_safety_factor: u32,
    pub max_safety_factor: u32,
    /// Frequency below which the safety factor grows.
    pub freq_threshold_low: u32,
    /// Frequency above which the safety factor shrinks.
    pub freq_threshold_high: u32,
}

impl AdaptiveSampler {
    /// The sampler that `new` gives.
    pub open spec fn with_rates(max_sampling_rate: u64, min_sampling_rate: u64) -> AdaptiveSampler {
        AdaptiveSampler {
            max_sampling_rate,
            min_sampling_rate,
            base_safety_factor: 10_000,
            min_safety_factor: 4_000,
            max_safety_factor: 50_000,
            freq_threshold_low: 1_000,
            freq_threshold_high: 100_000,
        }
    }

    /// How far the frequency lies above the high threshold, as the square
    /// root of their quotient in thousandths, kept between one and three.
    pub open spec fn high_band_ratio(self, signal_freq: u32) -> int {
        if self.freq_threshold_high == 0 {
            3000
        } else {
            clamp_spec(
                floor_sqrt(
                    (signal_freq as int * 1_000_000 / (self.freq_threshold_high as int)) as nat,
                ) as int,
                1000,
                3000,
            )
        }
    }

    /// The safety factor for a frequency.
    ///
    /// Below the low threshold the base factor grows with `low_band_log`,
    /// which is kept between one and a half and three. Above the high
    /// threshold the base factor is divided by the high-band ratio, but
    /// does not go below the smallest factor. In between it is the base
    /// factor.
    pub open spec fn dynamic_safety(self, signal_freq: u32, low_band_log: u32) -> int {
        if signal_freq < self.freq_threshold_low {
            self.base_safety_factor as int * clamp_spec(low_band_log as int, 1500, 3000) / 1000
        } else if signal_freq > self.freq_threshold_high {
            let divided = self.base_safety_factor as int * 1000 / self.high_band_ratio(signal_freq);
            if divided < self.min_safety_factor {
                self.min_safety_factor as int
            } else {
                divided
            }
        } else {
            self.base_safety_factor as int
        }
    }

    /// The sampling rate for a frequency: the frequency times its safety
    /// factor, raised to twice the frequency where it is below that, and
    /// then brought into the interval of the rates that the hardware
    /// allows.
    pub open spec fn rate(self, signal_freq: u32, low_band_log: u32) -> int {
        let target = signal_freq as int * self.dynamic_safety(signal_freq, low_band_log) / 1000;
        let floored = if target < 2 * signal_freq {
            2 * signal_freq
        } else {
            target
        };
        clamp_spec(floored, self.min_sampling_rate as int, self.max_sampling_rate as int)
    }

    /// A sampler for hardware that samples at rates from
    /// `min_sampling_rate` to `max_sampling_rate`.
    pub fn new(max_sampling_rate: u64, min_sampling_rate: u64) -> (sampler: Self)
        ensures
            sampler == AdaptiveSampler::with_rates(max_sampling_rate, min_sampling_rate),
    {
        AdaptiveSampler {
            max_sampling_rate,
            min_sampling_rate,
            base_safety_factor: 10_000,
            min_safety_factor: 4_000,
            max_safety_factor: 50_000,
            freq_threshold_low: 1_000,
            freq_threshold_high: 100_000,
        }
    }

    /// The quotient whose natural logarithm, in thousandths, is to be
    /// handed to `compute_sampling_rate` as `low_band_log`: the low
    /// threshold over the frequency, the frequency being taken as no less
    /// than the frequency floor.
    pub fn low_band_quotient(&self, signal_freq: u32) -> (quotient: (u32, u32))
        ensures
            quotient.0 == self.freq_threshold_low,
            quotient.1 == if signal_freq < FREQUENCY_FLOOR {
                FREQUENCY_FLOOR
            } else {
                signal_freq
            },
            quotient.1 > 0,
    {
        let floored = if signal_freq < FREQUENCY_FLOOR {
            FREQUENCY_FLOOR
        } else {
            signal_freq
        };
        (self.freq_threshold_low, floored)
    }

    fn calculate_dynamic_safety(&self, signal_freq: u32, low_band_log: u32) -> (factor: u64)
        ensures
            factor == self.dynamic_safety(signal_freq, low_band_log),
            factor <= 3 * u32::MAX,
    {
        let base = self.base_safety_factor as u64;
        if signal_freq < self.freq_threshold_low {
            let ratio: u64 = if low_band_log < 1500 {
                1500
            } else if low_band_log > 3000 {
                3000
            } else {
                low_band_log as u64
            };
            assert(base * ratio <= u32::MAX * 3000 && (base * ratio) / 1000 <= 3 * u32::MAX)
                by (nonlinear_arith)
                requires
                    0 <= base <= u32::MAX,
                    1500 <= ratio <= 3000,
            ;
            base * ratio / 1000
        } else if signal_freq > self.freq_threshold_high {
            let ratio: u64 = if self.freq_threshold_high == 0 {
                3000
            } else {
                let high = self.freq_threshold_high as u64;
                assert(signal_freq * 1_000_000 <= u32::MAX * 1_000_000) by (nonlinear_arith)
                    requires
                        0 <= signal_freq <= u32::MAX,
                ;
                let quotient: u64 = (signal_freq as u64) * 1_000_000 / high;
                let root = isqrt(quotient as u128);
                if root < 1000 {
                    1000
                } else if root > 3000 {
                    3000
                } else {
                    root
                }
            };
            assert(base * 1000 <= u32::MAX * 1000 && base * 1000 / (ratio as int) <= u32::MAX)
                by (nonlinear_arith)
                requires
                    0 <= base <= u32::MAX,
                    1000 <= ratio <= 3000,
            ;
            let divided: u64 = base * 1000 / ratio;
            if divided < self.min_safety_factor as u64 {
                self.min_safety_factor as u64
            } else {
                divided
            }
        } else {
            base
        }
    }

    /// Computes the sampling rate for a signal of the given frequency.
    ///
    /// `low_band_log` is the natural logarithm, in thousandths, of the
    /// quotient that `low_band_quotient` names; it counts only for
    /// frequencies below the low threshold.
    pub fn compute_sampling_rate(&self, signal_freq: u32, low_band_log: u32) -> (rate: u64)
        ensures
            rate == self.rate(signal_freq, low_band_log),
            self.min_sampling_rate <= self.max_sampling_rate ==> self.min_sampling_rate <= rate
                <= self.max_sampling_rate,
            2 * signal_freq <= self.max_sampling_rate ==> rate >= 2 * signal_freq,
    {
        let factor = self.calculate_dynamic_safety(signal_freq, low_band_log);
        assert(signal_freq * factor <= u32::MAX * (3 * u32::MAX) && signal_freq * factor / 1000
            <= u64::MAX) by (nonlinear_arith)
            requires
                0 <= signal_freq <= u32::MAX,
                0 <= factor <= 3 * u32::MAX,
        ;
        let product: u128 = (signal_freq as u128) * (factor as u128);
        let target: u64 = (product / 1000) as u64;
        let nyquist: u64 = 2 * (signal_freq as u64);
        let floored = if target < nyquist {
            nyquist
        } else {
            target
        };
        if floored < self.min_sampling_rate {
            self.min_sampling_rate
        } else if floored > self.max_sampling_rate {
            self.max_sampling_rate
        } else {
            floored
        }
    }

    /// Sets the base safety factor, brought into the interval from the
    /// smallest to the largest factor.
    pub fn set_base_safety_factor(&mut self, factor: u32)
        ensures
            *final(self) == (AdaptiveSampler {
                base_safety_factor: clamp_spec(
                    factor as int,
                    old(self).min_safety_factor as int,
                    old(self).max_safety_factor as int,
                ) as u32,
                ..*old(self)
            }),
    {
        self.base_safety_factor = if factor < self.min_safety_factor {
            self.min_safety_factor
        } else if factor > self.max_safety_factor {
            self.max_safety_factor
        } else {
            factor
        };
    }

    /// The thresholds that `set_frequency_thresholds` stores: the low one
    /// no less than the frequency floor, the high one no less than twice
    /// the low one as it was given.
    pub open spec fn thresholds_for(low: u32, high: u32) -> (u32, u32) {
        (
            if low < FREQUENCY_FLOOR {
                FREQUENCY_FLOOR
            } else {
                low
            },
            if high >= 2 * low {
                high
            } else if 2 * low > u32::MAX {
                u32::MAX
            } else {
                (2 * low) as u32
            },
        )
    }

    /// Sets the two frequency thresholds.
    pub fn set_frequency_thresholds(&mut self, low: u32, high: u32)
        ensures
            *final(self) == (AdaptiveSampler {
                freq_threshold_low: AdaptiveSampler::thresholds_for(low, high).0,
                freq_threshold_high: AdaptiveSampler::thresholds_for(low, high).1,
                ..*old(self)
            }),
    {
        self.freq_threshold_low = if low < FREQUENCY_FLOOR {
            FREQUENCY_FLOOR
        } else {
            low
        };
        let twice: u64 = 2 * (low as u64);
        self.freq_threshold_high = if high as u64 >= twice {
            high
        } else if twice > u32::MAX as u64 {
            u32::MAX
        } else {
            twice as u32
        };
    }
}

/// The sampling rate lies within the rates that the hardware allows, and,
/// wherever twice the frequency is a rate that the hardware allows, is at
/// least twice the frequency.
pub proof fn lemma_rate_bounds(sampler: AdaptiveSampler, signal_freq: u32, low_band_log: u32)
    requires
        sampler.min_sampling_rate <= sampler.max_sampling_rate,
    ensures
        sampler.min_sampling_rate <= sampler.rate(signal_freq, low_band_log)
            <= sampler.max_sampling_rate,
        2 * signal_freq <= sampler.max_sampling_rate ==> sampler.rate(signal_freq, low_band_log)
            >= 2 * signal_freq,
{
}

/// The safety factor of the low band lies between one and a half times and
/// three times the base factor. That of the high band is at least the
/// smallest factor and, unless it is the smallest factor, at most the base
/// factor. Between the thresholds it is the base factor.
pub proof fn lemma_dynamic_safety_bounds(
    sampler: AdaptiveSampler,
    signal_freq: u32,
    low_band_log: u32,
)
    ensures
        signal_freq < sampler.freq_threshold_low ==> sampler.base_safety_factor * 1500 / 1000
            <= sampler.dynamic_safety(signal_freq, low_band_log) <= sampler.base_safety_factor
            * 3,
        sampler.freq_threshold_low <= signal_freq && signal_freq > sampler.freq_threshold_high
            ==> sampler.dynamic_safety(signal_freq, low_band_log) >= sampler.min_safety_factor && (
        sampler.dynamic_safety(signal_freq, low_band_log)
            <= sampler.base_safety_factor || sampler.dynamic_safety(signal_freq, low_band_log)
            == sampler.min_safety_factor),
        sampler.freq_threshold_low <= signal_freq <= sampler.freq_threshold_high
            ==> sampler.dynamic_safety(signal_freq, low_band_log) == sampler.base_safety_factor,
{
    let base = sampler.base_safety_factor as int;
    let ratio = clamp_spec(low_band_log as int, 1500, 3000);
    assert(base * 1500 / 1000 <= base * ratio / 1000 && base * ratio / 1000 <= base * 3)
        by (nonlinear_arith)
        requires
            base >= 0,
            1500 <= ratio <= 3000,
    ;
    let high = sampler.high_band_ratio(signal_freq);
    let divided = base * 1000 / high;
    assert(divided <= base) by (nonlinear_arith)
        requires
            base >= 0,
            1000 <= high <= 3000,
            divided == base * 1000 / high,
    ;
}

} // verus!
