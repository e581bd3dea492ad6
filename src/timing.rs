//! PWM timing: switching period and dead-time derived from the system clock.
//!
//! All quantities are truncated to whole counter ticks, so the period may be
//! short of the exact value by less than one tick and the dead-time likewise.
//! The dead-time is also expressed as a whole percentage of the period, again
//! truncated, and that one figure is what both switches of a bridge are
//! programmed with.

use vstd::prelude::*;
use vstd::arithmetic::div_mod::{
    lemma_div_denominator, lemma_div_is_ordered, lemma_div_is_ordered_by_denominator,
    lemma_fundamental_div_mod, lemma_mod_pos_bound,
};
use vstd::arithmetic::mul::lemma_mul_inequality;
use crate::drive::{SwitchDrive, FULL_DUTY};

verus! {

/// Nanoseconds in one second.
pub const NANOS_PER_SECOND: u64 = 1_000_000_000;

/// Counter ticks in one switching period: the counter runs at
/// `clock_hz / divider`, the period lasts `1 / switching_freq_hz`.
pub open spec fn period_ticks_of(clock_hz: int, switching_freq_hz: int, divider: int) -> int {
    clock_hz / (switching_freq_hz * divider)
}

/// Counter ticks covered by `dead_time_ns` nanoseconds, truncated.
pub open spec fn dead_time_ticks_of(dead_time_ns: int, clock_hz: int, divider: int) -> int {
    dead_time_ns * clock_hz / divider / NANOS_PER_SECOND as int
}

/// A dead-time of `dead_time_ticks` as a whole percentage of `period_ticks`.
pub open spec fn dead_time_percent_of(dead_time_ticks: int, period_ticks: int) -> int {
    dead_time_ticks * 100 / period_ticks
}

/// Why a set of timing parameters cannot drive a motor.
#[derive(Clone, Copy, Debug, PartialEq, Eq, Structural)]
pub enum TimingError {
    /// The switching frequency or the clock divider is zero.
    ZeroRate,
    /// The switching frequency is too high for the clock and divider: the
    /// period truncates to zero ticks.
    NonPositivePeriod,
    /// The dead-time is as long as the switching period or longer.
    DeadTimeTooLong,
}

/// Fixed PWM parameters of one half-bridge.
#[derive(Clone, Copy, Debug, PartialEq, Eq, Structural)]
pub struct TimingConfig {
    /// Length of one switching period in counter ticks.
    pub period_ticks: u32,
    /// Dead-time in counter ticks.
    pub dead_time_ticks: u32,
    /// Dead-time as a whole percentage of the period.
    pub dead_time_percent: u8,
}

/// What `compute_timing` yields for the given raw parameters.
pub open spec fn timing_outcome(
    clock_hz: int,
    switching_freq_hz: int,
    divider: int,
    dead_time_ns: int,
) -> Result<TimingConfig, TimingError> {
    let period = period_ticks_of(clock_hz, switching_freq_hz, divider);
    let dead = dead_time_ticks_of(dead_time_ns, clock_hz, divider);
    if switching_freq_hz == 0 || divider == 0 {
        Err(TimingError::ZeroRate)
    } else if period <= 0 {
        Err(TimingError::NonPositivePeriod)
    } else if dead >= period {
        Err(TimingError::DeadTimeTooLong)
    } else {
        Ok(
            TimingConfig {
                period_ticks: period as u32,
                dead_time_ticks: dead as u32,
                dead_time_percent: dead_time_percent_of(dead, period) as u8,
            },
        )
    }
}

impl TimingConfig {
    /// A positive period, a dead-time shorter than it, and the percentage
    /// derived from the two.
    pub open spec fn wf(self) -> bool {
        &&& 0 < self.period_ticks
        &&& self.dead_time_ticks < self.period_ticks
        &&& self.dead_time_percent as int == dead_time_percent_of(
            self.dead_time_ticks as int,
            self.period_ticks as int,
        )
    }

    /// Ticks in half a period, truncated: how long a phase-correct counter
    /// takes to ramp up, or down.
    pub open spec fn spec_half_period_ticks(self) -> int {
        self.period_ticks as int / 2
    }

    /// Top value of a phase-correct counter: it counts `0..=top` up and back
    /// down, so `top + 1` is the half-period. A one-tick period has no whole
    /// half-period; it gets the smallest counter, top 0.
    pub open spec fn spec_pwm_top(self) -> int {
        if self.spec_half_period_ticks() > 0 {
            self.spec_half_period_ticks() - 1
        } else {
            0
        }
    }

    /// Compare value at which a channel conducts for `percent` percent of the
    /// counter range `0..=top`.
    pub open spec fn spec_compare_for_percent(self, percent: int) -> int {
        (self.spec_pwm_top() + 1) * percent / 100
    }

    pub fn pwm_top(&self) -> (r: u32)
        requires
            self.wf(),
        ensures
            r == self.spec_pwm_top(),
    {
        let half = self.period_ticks / 2;
        if half > 0 {
            half - 1
        } else {
            0
        }
    }

    pub fn compare_for_percent(&self, percent: u8) -> (r: u64)
        requires
            self.wf(),
        ensures
            r == self.spec_compare_for_percent(percent as int),
            percent <= 100 ==> r <= self.spec_pwm_top() + 1,
    {
        let span: u64 = self.pwm_top() as u64 + 1;
        proof {
            lemma_mul_inequality(percent as int, 255, span as int);
            if percent <= 100 {
                lemma_mul_inequality(percent as int, 100, span as int);
                lemma_div_is_ordered(span * percent, span * 100, 100);
                assert(span * 100 / 100 == span);
            }
        }
        span * percent as u64 / 100
    }

    /// The channel register setting that realises `drive`: the output is
    /// active while the counter is below the compare value, or at or above it
    /// when inverted.
    pub fn channel_setting(&self, drive: SwitchDrive) -> (r: ChannelSetting)
        requires
            self.wf(),
        ensures
            r.inverted == (drive is AtOrAbove),
            r.compare == self.spec_compare_for_percent(threshold_of(drive) as int),
    {
        match drive {
            SwitchDrive::Off => ChannelSetting { inverted: false, compare: self.compare_for_percent(0) },
            SwitchDrive::On => ChannelSetting {
                inverted: false,
                compare: self.compare_for_percent(FULL_DUTY),
            },
            SwitchDrive::Below(p) => ChannelSetting {
                inverted: false,
                compare: self.compare_for_percent(p),
            },
            SwitchDrive::AtOrAbove(p) => ChannelSetting {
                inverted: true,
                compare: self.compare_for_percent(p),
            },
        }
    }
}

/// Counter position, in percent, at which a switch programmed with `drive`
/// changes between conducting and not.
pub open spec fn threshold_of(drive: SwitchDrive) -> u8 {
    match drive {
        SwitchDrive::Off => 0,
        SwitchDrive::On => FULL_DUTY,
        SwitchDrive::Below(p) => p,
        SwitchDrive::AtOrAbove(p) => p,
    }
}

/// Register setting of one PWM channel.
#[derive(Clone, Copy, Debug, PartialEq, Eq, Structural)]
pub struct ChannelSetting {
    /// Whether the output is inverted.
    pub inverted: bool,
    /// Compare value in counter ticks.
    pub compare: u64,
}

/// Derives the PWM timing of a half-bridge from the system clock.
///
/// The period is `clock_hz / (switching_freq_hz * divider)` ticks and the
/// dead-time `dead_time_ns * clock_hz / divider / 10^9` ticks, both truncated.
/// A zero frequency or divider, a period of zero ticks, or a dead-time as long
/// as the period is refused.
pub fn compute_timing(clock_hz: u32, switching_freq_hz: u32, divider: u32, dead_time_ns: u32) -> (r:
    Result<TimingConfig, TimingError>)
    ensures
        r == timing_outcome(
            clock_hz as int,
            switching_freq_hz as int,
            divider as int,
            dead_time_ns as int,
        ),
        r is Ok ==> r->Ok_0.wf(),
{
    if switching_freq_hz == 0 || divider == 0 {
        return Err(TimingError::ZeroRate);
    }
    let freq = switching_freq_hz as u64;
    let div = divider as u64;
    let clock = clock_hz as u64;
    proof {
        lemma_mul_inequality(freq as int, u32::MAX as int, div as int);
        lemma_mul_inequality(div as int, u32::MAX as int, u32::MAX as int);
        lemma_mul_inequality(1, freq as int, div as int);
    }
    let denominator: u64 = freq * div;
    let period: u64 = clock / denominator;
    if period == 0 {
        return Err(TimingError::NonPositivePeriod);
    }
    proof {
        lemma_div_is_ordered_by_denominator(clock as int, 1, denominator as int);
        lemma_mul_inequality(dead_time_ns as int, u32::MAX as int, clock as int);
        lemma_mul_inequality(clock as int, u32::MAX as int, u32::MAX as int);
    }
    let dead: u64 = dead_time_ns as u64 * clock / div / NANOS_PER_SECOND;
    if dead >= period {
        return Err(TimingError::DeadTimeTooLong);
    }
    proof {
        lemma_mul_inequality(dead as int, period as int, 100);
        lemma_div_is_ordered(dead * 100, period * 100, period as int);
        assert(period * 100 / period as int == 100) by (nonlinear_arith)
            requires
                period > 0,
        ;
        if dead * 100 / period as int == 100 {
            assert(dead * 100 >= period * 100) by (nonlinear_arith)
                requires
                    dead * 100 / period as int == 100,
                    period > 0,
            ;
        }
    }
    let percent: u64 = dead * 100 / period;
    Ok(
        TimingConfig {
            period_ticks: period as u32,
            dead_time_ticks: dead as u32,
            dead_time_percent: percent as u8,
        },
    )
}

/// Truncation loses less than one tick: `period` whole periods fit in the
/// clock's ticks per second and `period + 1` do not, and likewise for the
/// dead-time measured in nanoseconds.
pub proof fn lemma_truncation_within_one_tick(
    clock_hz: int,
    switching_freq_hz: int,
    divider: int,
    dead_time_ns: int,
)
    requires
        0 <= clock_hz,
        0 < switching_freq_hz,
        0 < divider,
        0 <= dead_time_ns,
    ensures
        ({
            let period = period_ticks_of(clock_hz, switching_freq_hz, divider);
            period * (switching_freq_hz * divider) <= clock_hz < (period + 1) * (
            switching_freq_hz * divider)
        }),
        ({
            let dead = dead_time_ticks_of(dead_time_ns, clock_hz, divider);
            dead * (divider * NANOS_PER_SECOND) <= dead_time_ns * clock_hz < (dead + 1) * (divider
                * NANOS_PER_SECOND)
        }),
{
    let denominator = switching_freq_hz * divider;
    lemma_mul_inequality(1, switching_freq_hz, divider);
    lemma_fundamental_div_mod(clock_hz, denominator);
    lemma_mod_pos_bound(clock_hz, denominator);
    assert(clock_hz / denominator * denominator <= clock_hz < (clock_hz / denominator + 1)
        * denominator) by (nonlinear_arith)
        requires
            clock_hz == denominator * (clock_hz / denominator) + clock_hz % denominator,
            0 <= clock_hz % denominator < denominator,
    ;
    let scaled = dead_time_ns * clock_hz;
    let per_tick = divider * NANOS_PER_SECOND;
    lemma_mul_inequality(0, dead_time_ns, clock_hz);
    lemma_div_denominator(scaled, divider, NANOS_PER_SECOND as int);
    lemma_mul_inequality(1, divider, NANOS_PER_SECOND as int);
    lemma_fundamental_div_mod(scaled, per_tick);
    lemma_mod_pos_bound(scaled, per_tick);
    assert(scaled / per_tick * per_tick <= scaled < (scaled / per_tick + 1) * per_tick)
        by (nonlinear_arith)
        requires
            scaled == per_tick * (scaled / per_tick) + scaled % per_tick,
            0 <= scaled % per_tick < per_tick,
    ;
}

/// A longer dead-time never gives fewer dead-time ticks, for a fixed clock
/// and divider.
pub proof fn lemma_dead_time_ticks_monotonic(
    shorter_ns: int,
    longer_ns: int,
    clock_hz: int,
    divider: int,
)
    requires
        0 <= shorter_ns <= longer_ns,
        0 <= clock_hz,
        0 < divider,
    ensures
        dead_time_ticks_of(shorter_ns, clock_hz, divider) <= dead_time_ticks_of(
            longer_ns,
            clock_hz,
            divider,
        ),
{
    lemma_mul_inequality(shorter_ns, longer_ns, clock_hz);
    lemma_div_is_ordered(shorter_ns * clock_hz, longer_ns * clock_hz, divider);
    lemma_div_is_ordered(
        shorter_ns * clock_hz / divider,
        longer_ns * clock_hz / divider,
        NANOS_PER_SECOND as int,
    );
}

} // verus!
