//! Power estimator: exponential smoothing, a rolling window, a weighted
//! power figure, the time-remaining estimate and the trend of power use.
use vstd::prelude::*;
use std::collections::VecDeque;
use crate::chars::str_eq;
use crate::history::{bounded_push, push_bounded};
use crate::sampler::{BatteryReading, METRIC_LIMIT};

verus! {

/// Smallest instantaneous power magnitude, in microwatts, that is not
/// treated as idle noise.
pub const MIN_POWER_THRESHOLD_UW: i64 = 50_000;

/// Capacity of the power-sample and reading histories.
pub const MAX_HISTORY_SIZE: usize = 300;

/// Power samples needed before any time-remaining estimate is given.
pub const MIN_SAMPLES_FOR_ESTIMATE: usize = 3;

/// Number of recent power values averaged by the rolling window.
pub const ROLLING_WINDOW_SIZE: usize = 10;

/// One entry of the power history.
#[derive(Clone, Copy, Debug, PartialEq, Eq, Structural)]
pub struct PowerSample {
    /// Seconds since the Unix epoch.
    pub timestamp: u64,
    /// Power, in microwatts.
    pub power_uw: i64,
    /// Energy stored at that time, in microwatt-hours.
    pub energy_uwh: i64,
}

/// Direction in which power use has moved over the last samples.
#[derive(Clone, Copy, Debug, PartialEq, Eq, Structural)]
pub enum PowerTrend {
    Stable,
    Increasing,
    Decreasing,
}

/// The name of a trend.
pub open spec fn trend_name(t: PowerTrend) -> Seq<char> {
    match t {
        PowerTrend::Stable => "stable"@,
        PowerTrend::Increasing => "increasing"@,
        PowerTrend::Decreasing => "decreasing"@,
    }
}

impl PowerTrend {
    /// The trend's name: "stable", "increasing" or "decreasing".
    pub fn as_str(&self) -> (s: &'static str)
        ensures
            s@ == trend_name(*self),
    {
        match self {
            PowerTrend::Stable => "stable",
            PowerTrend::Increasing => "increasing",
            PowerTrend::Decreasing => "decreasing",
        }
    }
}

/// Smoothing state and power history.
#[derive(Debug)]
pub struct PowerEstimator {
    smoothed_power: Option<i64>,
    rolling_power_window: VecDeque<i64>,
    power_history: VecDeque<PowerSample>,
}

/// What a [`PowerEstimator`] holds.
pub struct EstimatorView {
    /// The exponentially smoothed power, once any power was seen.
    pub smoothed: Option<i64>,
    /// The most recent power values, oldest first.
    pub window: Seq<i64>,
    /// The power history, oldest first.
    pub history: Seq<PowerSample>,
}

impl View for PowerEstimator {
    type V = EstimatorView;

    closed spec fn view(&self) -> EstimatorView {
        EstimatorView {
            smoothed: self.smoothed_power,
            window: self.rolling_power_window@,
            history: self.power_history@,
        }
    }
}

/// An optional machine integer as an optional mathematical one.
pub open spec fn as_int(o: Option<i64>) -> Option<int> {
    match o {
        Some(x) => Some(x as int),
        None => None,
    }
}

/// Bounded sizes, and a smoothed value whenever the window holds any.
pub open spec fn estimator_wf(v: EstimatorView) -> bool {
    &&& v.window.len() <= ROLLING_WINDOW_SIZE
    &&& v.history.len() <= MAX_HISTORY_SIZE
    &&& (v.smoothed is None ==> v.window.len() == 0)
}

/// The smoothed power after seeing `current`: the first value as it is,
/// then one quarter of the new value and three quarters of the old one
/// (rounded down).
pub open spec fn ema_next(prev: Option<i64>, current: int) -> int {
    match prev {
        None => current,
        Some(p) => (current + 3 * p) / 4,
    }
}

/// Sum of a sequence of values.
pub open spec fn seq_sum(s: Seq<i64>) -> int
    decreases s.len(),
{
    if s.len() == 0 {
        0
    } else {
        seq_sum(s.drop_last()) + s.last()
    }
}

/// The rolling average: the mean (rounded down) of the window once it holds
/// at least three values, else the smoothed power.
pub open spec fn rolling_spec(v: EstimatorView) -> Option<int> {
    if v.window.len() < 3 {
        as_int(v.smoothed)
    } else {
        Some(seq_sum(v.window) / (v.window.len() as int))
    }
}

/// Ten times the weighted power: instantaneous, smoothed and rolling values
/// blended by weights that depend on the size `n` of the power history.
pub open spec fn weighted_tenths(n: nat, inst: int, smoothed: int, rolling: int) -> int {
    if n < 5 {
        8 * inst + 2 * smoothed
    } else if n < 10 {
        5 * inst + 5 * smoothed
    } else {
        2 * inst + 3 * smoothed + 5 * rolling
    }
}

/// `num / den` rounded half up, and never less than one; `den` is positive.
pub open spec fn rounded_minutes(num: int, den: int) -> int {
    if num <= 0 {
        1
    } else {
        let q = (2 * num + den) / (2 * den);
        if q < 1 {
            1
        } else {
            q
        }
    }
}

/// A minute count capped to the largest `u32`.
pub open spec fn clamp_u32(m: int) -> u32 {
    if m > u32::MAX {
        u32::MAX
    } else {
        m as u32
    }
}

/// Minutes to empty while discharging, from ten times the weighted power.
pub open spec fn discharge_minutes(info: BatteryReading, wp10: int) -> Option<int> {
    match info.energy_now_uwh {
        Some(e) => Some(rounded_minutes(600 * e, wp10)),
        None => match (info.voltage_uv, info.current_ma) {
            (Some(v), Some(c)) => if c < 0 && v > 0 && v * (-c) > 50_000_000 {
                Some(rounded_minutes(1800 * info.capacity_percent, -c))
            } else {
                None
            },
            _ => None,
        },
    }
}

/// Minutes to full while charging, from ten times the weighted power. The
/// charge-curve efficiency is 0.3 above 95% of full, `0.6 + (0.9 - p) * 2`
/// above 80%, and 0.9 below.
pub open spec fn charge_minutes(info: BatteryReading, wp10: int) -> Option<int> {
    match (info.energy_now_uwh, info.energy_full_uwh) {
        (Some(now), Some(full)) => if full <= 0 {
            None
        } else if 100 * now > 95 * full {
            Some(rounded_minutes(6000 * (full - now), 3 * wp10))
        } else if 10 * now > 8 * full {
            Some(rounded_minutes(3000 * ((full - now) * full), wp10 * (12 * full - 10 * now)))
        } else {
            Some(rounded_minutes(6000 * (full - now), 9 * wp10))
        },
        _ => match (info.voltage_uv, info.current_ma) {
            (Some(v), Some(c)) => {
                let k: int = if info.capacity_percent > 80 {
                    7
                } else {
                    9
                };
                let ah: int = if v > 12_000_000 {
                    4
                } else if v > 7_000_000 {
                    3
                } else {
                    2
                };
                if c > 0 && v > 0 && v * c * k > 500_000_000 {
                    Some(rounded_minutes(6000 * (ah * (100 - info.capacity_percent)), c * k))
                } else {
                    None
                }
            },
            _ => None,
        },
    }
}

/// Ten times the weighted power for `info`, when there is a basis for it.
pub open spec fn weighted_for(v: EstimatorView, info: BatteryReading) -> Option<int> {
    match (info.power_now_uw, v.smoothed, rolling_spec(v)) {
        (Some(inst), Some(sm), Some(roll)) => Some(
            weighted_tenths(v.history.len(), inst as int, sm as int, roll),
        ),
        _ => None,
    }
}

/// The time-remaining estimate, in minutes.
pub open spec fn time_remaining_spec(v: EstimatorView, info: BatteryReading) -> Option<u32> {
    match (info.power_now_uw, weighted_for(v, info)) {
        (Some(inst), Some(wp10)) => if -MIN_POWER_THRESHOLD_UW < inst < MIN_POWER_THRESHOLD_UW
            || v.history.len() < MIN_SAMPLES_FOR_ESTIMATE || wp10 <= 0 {
            None
        } else {
            let m = if info.status@ == "Discharging"@ {
                discharge_minutes(info, wp10)
            } else if info.status@ == "Charging"@ {
                charge_minutes(info, wp10)
            } else {
                None
            };
            match m {
                Some(x) => Some(clamp_u32(x)),
                None => None,
            }
        },
        _ => None,
    }
}

/// The sum of the differences between each of the last five power samples
/// and the one before it (newest minus next newest).
pub open spec fn trend_sum(h: Seq<PowerSample>) -> int {
    let n = h.len() as int;
    (h[n - 1].power_uw - h[n - 2].power_uw) + (h[n - 2].power_uw - h[n - 3].power_uw) + (h[n
        - 3].power_uw - h[n - 4].power_uw) + (h[n - 4].power_uw - h[n - 5].power_uw)
}

/// The trend: with five samples or more, the mean of the last four
/// differences above 0.5 W is increasing, below -0.5 W decreasing; anything
/// else is stable.
pub open spec fn trend_spec(h: Seq<PowerSample>) -> PowerTrend {
    if h.len() < 5 {
        PowerTrend::Stable
    } else if trend_sum(h) > 4 * 500_000 {
        PowerTrend::Increasing
    } else if trend_sum(h) < -4 * 500_000 {
        PowerTrend::Decreasing
    } else {
        PowerTrend::Stable
    }
}

/// `n / d`, rounded down.
pub(crate) fn div_floor(n: i128, d: i128) -> (r: i128)
    requires
        d > 0,
    ensures
        r == n / d,
{
    proof {
        assert(n >= 0 ==> 0 <= n / d <= n) by (nonlinear_arith)
            requires
                d > 0,
        ;
        assert(n < 0 ==> n <= n / d < 0) by (nonlinear_arith)
            requires
                d > 0,
        ;
    }
    match n.checked_div_euclid(d) {
        Some(q) => q,
        None => 0,
    }
}

/// `num / den` rounded half up, at least one, and capped to fit a `u32`.
fn minutes_of(num: i128, den: i128) -> (r: u32)
    requires
        den > 0,
        -0x100_0000_0000_0000_0000_0000_0000_0000 <= num <= 0x100_0000_0000_0000_0000_0000_0000_0000,
        den <= 0x100_0000_0000_0000_0000_0000_0000_0000,
    ensures
        r == clamp_u32(rounded_minutes(num as int, den as int)),
{
    if num <= 0 {
        return 1;
    }
    let q = div_floor(2 * num + den, 2 * den);
    if q < 1 {
        1
    } else if q > u32::MAX as i128 {
        u32::MAX
    } else {
        q as u32
    }
}


/// An optional minute count capped to the largest `u32`.
pub open spec fn opt_clamp(m: Option<int>) -> Option<u32> {
    match m {
        Some(x) => Some(clamp_u32(x)),
        None => None,
    }
}

proof fn lemma_mul_bound(a: int, b: int, x: int, y: int)
    requires
        -x <= a <= x,
        -y <= b <= y,
    ensures
        -(x * y) <= a * b <= x * y,
{
    assert(-(x * y) <= a * b <= x * y) by (nonlinear_arith)
        requires
            -x <= a <= x,
            -y <= b <= y,
    ;
}

/// Minutes to empty while discharging.
fn discharge_minutes_exec(info: &BatteryReading, wp10: i128) -> (r: Option<u32>)
    requires
        info.well_formed(),
        0 < wp10 <= 10 * i64::MAX,
    ensures
        r == opt_clamp(discharge_minutes(*info, wp10 as int)),
{
    match info.energy_now_uwh {
        Some(e) => Some(minutes_of(600 * e as i128, wp10)),
        None => match (info.voltage_uv, info.current_ma) {
            (Some(v), Some(c)) => {
                if c < 0 && v > 0 {
                    let neg = -(c as i128);
                    proof {
                        lemma_mul_bound(v as int, neg as int, METRIC_LIMIT as int, 0x1_0000_0000);
                    }
                    if v as i128 * neg > 50_000_000 {
                        return Some(minutes_of(1800 * info.capacity_percent as i128, neg));
                    }
                }
                None
            },
            _ => None,
        },
    }
}

/// Minutes to full while charging.
fn charge_minutes_exec(info: &BatteryReading, wp10: i128) -> (r: Option<u32>)
    requires
        info.well_formed(),
        0 < wp10 <= 10 * i64::MAX,
    ensures
        r == opt_clamp(charge_minutes(*info, wp10 as int)),
{
    match (info.energy_now_uwh, info.energy_full_uwh) {
        (Some(now), Some(full)) => {
            let now = now as i128;
            let full = full as i128;
            if full <= 0 {
                None
            } else if 100 * now > 95 * full {
                Some(minutes_of(6000 * (full - now), 3 * wp10))
            } else if 10 * now > 8 * full {
                proof {
                    lemma_mul_bound(
                        (full - now) as int,
                        full as int,
                        2 * METRIC_LIMIT,
                        METRIC_LIMIT as int,
                    );
                    lemma_mul_bound(wp10 as int, (12 * full - 10 * now) as int, 10 * i64::MAX,
                        22 * METRIC_LIMIT);
                    assert(0 < wp10 * (12 * full - 10 * now)) by (nonlinear_arith)
                        requires
                            0 < wp10,
                            0 < 12 * full - 10 * now,
                    ;
                }
                Some(minutes_of(3000 * ((full - now) * full), wp10 * (12 * full - 10 * now)))
            } else {
                Some(minutes_of(6000 * (full - now), 9 * wp10))
            }
        },
        _ => match (info.voltage_uv, info.current_ma) {
            (Some(v), Some(c)) => {
                let k: i128 = if info.capacity_percent > 80 {
                    7
                } else {
                    9
                };
                let ah: i128 = if v > 12_000_000 {
                    4
                } else if v > 7_000_000 {
                    3
                } else {
                    2
                };
                if c > 0 && v > 0 {
                    let c = c as i128;
                    proof {
                        lemma_mul_bound(v as int, c as int, METRIC_LIMIT as int, 0x1_0000_0000);
                        lemma_mul_bound(
                            (v * c) as int,
                            k as int,
                            METRIC_LIMIT * 0x1_0000_0000,
                            9,
                        );
                    }
                    if v as i128 * c * k > 500_000_000 {
                        let remaining: i128 = 100 - info.capacity_percent as i128;
                        assert(0 <= ah * remaining <= 400) by (nonlinear_arith)
                            requires
                                2 <= ah <= 4,
                                0 <= remaining <= 100,
                        ;
                        return Some(minutes_of(6000 * (ah * remaining), c * k));
                    }
                }
                None
            },
            _ => None,
        },
    }
}

impl PowerEstimator {
    /// The well-formedness of the estimator's state.
    pub open spec fn wf(&self) -> bool {
        estimator_wf(self@)
    }

    /// An estimator that has seen nothing.
    pub fn new() -> (e: PowerEstimator)
        ensures
            e.wf(),
            e@.smoothed is None,
            e@.window.len() == 0,
            e@.history.len() == 0,
    {
        PowerEstimator {
            smoothed_power: None,
            rolling_power_window: VecDeque::new(),
            power_history: VecDeque::new(),
        }
    }

    /// Feeds one power value to the exponential average and to the rolling
    /// window, which keeps the last ten values.
    pub fn update_smoothed_power(&mut self, current_power: i64)
        requires
            old(self).wf(),
        ensures
            final(self).wf(),
            as_int(final(self)@.smoothed) == Some(ema_next(old(self)@.smoothed, current_power as int)),
            final(self)@.window == bounded_push(old(self)@.window, current_power, ROLLING_WINDOW_SIZE as nat),
            final(self)@.history == old(self)@.history,
    {
        let next: i64 = match self.smoothed_power {
            Some(prev) => {
                div_floor(current_power as i128 + 3 * prev as i128, 4) as i64
            },
            None => current_power,
        };
        self.smoothed_power = Some(next);
        push_bounded(&mut self.rolling_power_window, current_power, ROLLING_WINDOW_SIZE);
    }

    /// Appends a sample to the power history, evicting the oldest beyond
    /// the history's capacity.
    pub fn record_sample(&mut self, sample: PowerSample)
        requires
            old(self).wf(),
        ensures
            final(self).wf(),
            final(self)@.history == bounded_push(old(self)@.history, sample, MAX_HISTORY_SIZE as nat),
            final(self)@.smoothed == old(self)@.smoothed,
            final(self)@.window == old(self)@.window,
    {
        push_bounded(&mut self.power_history, sample, MAX_HISTORY_SIZE);
    }

    /// The rolling average power: the mean of the window once it holds at
    /// least three values, else the smoothed power.
    pub fn get_rolling_average_power(&self) -> (r: Option<i64>)
        requires
            self.wf(),
        ensures
            as_int(r) == rolling_spec(self@),
    {
        let n = self.rolling_power_window.len();
        if n < 3 {
            return self.smoothed_power;
        }
        let mut sum: i128 = 0;
        let mut i: usize = 0;
        while i < n
            invariant
                n == self@.window.len(),
                estimator_wf(self@),
                i <= n,
                sum == seq_sum(self@.window.subrange(0, i as int)),
                -(i * 0x8000_0000_0000_0000) <= sum <= i * 0x7fff_ffff_ffff_ffff,
            decreases n - i,
        {
            assert(self@.window.subrange(0, i + 1).drop_last() =~= self@.window.subrange(
                0,
                i as int,
            ));
            sum = sum + self.rolling_power_window[i] as i128;
            i = i + 1;
        }
        assert(self@.window.subrange(0, n as int) =~= self@.window);
        let mean = div_floor(sum, n as i128);
        proof {
            let ni = n as int;
            let si = sum as int;
            assert(-0x8000_0000_0000_0000 <= si / ni < 0x8000_0000_0000_0000) by (nonlinear_arith)
                requires
                    ni >= 3,
                    -(ni * 0x8000_0000_0000_0000) <= si <= ni * 0x7fff_ffff_ffff_ffff,
            ;
        }
        Some(mean as i64)
    }

    /// Minutes until empty (discharging) or full (charging), when there is a
    /// basis for an estimate: a power reading of at least the idle threshold
    /// in magnitude, at least three power samples, a positive weighted power
    /// and a status of "Discharging" or "Charging".
    pub fn calculate_time_remaining(&self, info: &BatteryReading) -> (r: Option<u32>)
        requires
            self.wf(),
            info.well_formed(),
        ensures
            r == time_remaining_spec(self@, *info),
    {
        let inst = match info.power_now_uw {
            Some(p) => p,
            None => return None,
        };
        let sm = match self.smoothed_power {
            Some(s) => s,
            None => return None,
        };
        let roll = match self.get_rolling_average_power() {
            Some(x) => x,
            None => return None,
        };
        if -MIN_POWER_THRESHOLD_UW < inst && inst < MIN_POWER_THRESHOLD_UW {
            return None;
        }
        let n = self.power_history.len();
        if n < MIN_SAMPLES_FOR_ESTIMATE {
            return None;
        }
        let wp10: i128 = if n < 5 {
            8 * inst as i128 + 2 * sm as i128
        } else if n < ROLLING_WINDOW_SIZE {
            5 * inst as i128 + 5 * sm as i128
        } else {
            2 * inst as i128 + 3 * sm as i128 + 5 * roll as i128
        };
        if wp10 <= 0 {
            return None;
        }
        if str_eq(info.status.as_str(), "Discharging") {
            discharge_minutes_exec(info, wp10)
        } else if str_eq(info.status.as_str(), "Charging") {
            charge_minutes_exec(info, wp10)
        } else {
            None
        }
    }

    /// The direction power use has taken over the last five samples.
    pub fn get_power_trend(&self) -> (t: PowerTrend)
        ensures
            t == trend_spec(self@.history),
    {
        let n = self.power_history.len();
        if n < 5 {
            return PowerTrend::Stable;
        }
        let mut sum: i128 = 0;
        let mut k: usize = 1;
        while k < 5
            invariant
                n == self@.history.len(),
                n >= 5,
                1 <= k <= 5,
                sum == self@.history[n - 1].power_uw - self@.history[n - k].power_uw,
            decreases 5 - k,
        {
            let newer = self.power_history[n - k].power_uw as i128;
            let older = self.power_history[n - k - 1].power_uw as i128;
            sum = sum + (newer - older);
            k = k + 1;
        }
        if sum > 4 * 500_000 {
            PowerTrend::Increasing
        } else if sum < -4 * 500_000 {
            PowerTrend::Decreasing
        } else {
            PowerTrend::Stable
        }
    }

    /// The exponentially smoothed power, once any power was seen.
    pub fn smoothed_power(&self) -> (r: Option<i64>)
        ensures
            r == self@.smoothed,
    {
        self.smoothed_power
    }

    /// Number of values in the rolling window.
    pub fn window_len(&self) -> (r: usize)
        ensures
            r == self@.window.len(),
    {
        self.rolling_power_window.len()
    }

    /// Number of samples in the power history.
    pub fn history_len(&self) -> (r: usize)
        ensures
            r == self@.history.len(),
    {
        self.power_history.len()
    }

    /// The power history, oldest first.
    pub fn history(&self) -> (r: Vec<PowerSample>)
        ensures
            r@ == self@.history,
    {
        let mut r: Vec<PowerSample> = Vec::new();
        let mut i: usize = 0;
        while i < self.power_history.len()
            invariant
                i <= self@.history.len(),
                r@ == self@.history.subrange(0, i as int),
            decreases self@.history.len() - i,
        {
            r.push(self.power_history[i]);
            i = i + 1;
            assert(r@ =~= self@.history.subrange(0, i as int));
        }
        assert(self@.history.subrange(0, i as int) =~= self@.history);
        r
    }
}

/// No time-remaining estimate is given with fewer than three power samples,
/// with a weighted power that is not positive, or in the "Full" or
/// "Not charging" state.
pub proof fn lemma_no_estimate_without_basis(v: EstimatorView, info: BatteryReading)
    ensures
        v.history.len() < MIN_SAMPLES_FOR_ESTIMATE ==> time_remaining_spec(v, info) is None,
        (weighted_for(v, info) matches Some(w) && w <= 0) ==> time_remaining_spec(v, info) is None,
        info.status@ == "Full"@ ==> time_remaining_spec(v, info) is None,
        info.status@ == "Not charging"@ ==> time_remaining_spec(v, info) is None,
{
    reveal_strlit("Full");
    reveal_strlit("Not charging");
    reveal_strlit("Discharging");
    reveal_strlit("Charging");
    assert("Full"@.len() != "Discharging"@.len());
    assert("Full"@.len() != "Charging"@.len());
    assert("Not charging"@.len() != "Discharging"@.len());
    assert("Not charging"@.len() != "Charging"@.len());
}

/// Every time-remaining estimate is at least one minute.
pub proof fn lemma_estimate_at_least_one_minute(v: EstimatorView, info: BatteryReading)
    ensures
        time_remaining_spec(v, info) matches Some(m) ==> m >= 1,
{
}

} // verus!
