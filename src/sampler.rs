//! One polling cycle: raw battery metrics in, a snapshot record out.
use vstd::prelude::*;
use std::collections::VecDeque;
use crate::estimator::{
    as_int, div_floor, ema_next, estimator_wf, time_remaining_spec, trend_spec, EstimatorView,
    PowerEstimator, PowerSample, PowerTrend, MAX_HISTORY_SIZE, ROLLING_WINDOW_SIZE,
};
use crate::history::{bounded_push, push_bounded};
use crate::sensors::{first_valid, reading_milli, reading_of, TemperatureMonitor, TemperatureReading};

verus! {

/// Largest magnitude accepted for an energy, power, charge or voltage value
/// in micro-units (about 1.1 MWh, 1.1 MW, 1.1 MV). Larger values are not
/// physical readings and are treated as malformed.
pub const METRIC_LIMIT: i64 = 1_099_511_627_776;

/// A value within the plausible range of a metric.
pub open spec fn plausible(x: int) -> bool {
    -METRIC_LIMIT <= x <= METRIC_LIMIT
}

/// An absent value, or one within the plausible range.
pub open spec fn opt_plausible(o: Option<i64>) -> bool {
    match o {
        Some(x) => plausible(x as int),
        None => true,
    }
}

/// One polling cycle's raw facts.
#[derive(Debug)]
pub struct BatteryReading {
    /// Seconds since the Unix epoch.
    pub timestamp: u64,
    /// State of charge, 0 to 100.
    pub capacity_percent: u8,
    /// Energy stored now, in microwatt-hours.
    pub energy_now_uwh: Option<i64>,
    /// Energy stored when full, in microwatt-hours.
    pub energy_full_uwh: Option<i64>,
    /// Instantaneous power, in microwatts.
    pub power_now_uw: Option<i64>,
    /// Voltage, in microvolts.
    pub voltage_uv: Option<i64>,
    /// Current, in milliamps; negative while discharging.
    pub current_ma: Option<i32>,
    /// "Charging", "Discharging", "Full", "Not charging" or "Unknown".
    pub status: String,
    /// Battery temperature, in thousandths of a degree Celsius.
    pub temperature_millicelsius: Option<i64>,
}

impl BatteryReading {
    /// Capacity within 0..=100, and energy and voltage within their plausible range.
    pub open spec fn well_formed(&self) -> bool {
        &&& self.capacity_percent <= 100
        &&& opt_plausible(self.energy_now_uwh)
        &&& opt_plausible(self.energy_full_uwh)
        &&& opt_plausible(self.voltage_uv)
    }
}

/// The raw battery attributes of one polling cycle, as read from the host.
/// Each is `None` when its source was missing or did not parse.
pub struct BatterySources {
    /// Whether the battery device exists at all.
    pub present: bool,
    pub status: Option<String>,
    /// State of charge, in percent.
    pub capacity: Option<u8>,
    /// Microvolts.
    pub voltage_now: Option<i64>,
    /// Microamps; negative while discharging.
    pub current_now: Option<i32>,
    pub cycle_count: Option<u32>,
    /// Microwatt-hours.
    pub energy_now: Option<i64>,
    /// Microwatt-hours.
    pub energy_full: Option<i64>,
    /// Microwatt-hours.
    pub energy_full_design: Option<i64>,
    /// Microamp-hours.
    pub charge_now: Option<i64>,
    /// Microamp-hours.
    pub charge_full: Option<i64>,
    /// Microamp-hours.
    pub charge_full_design: Option<i64>,
    /// Microwatts.
    pub power_now: Option<i64>,
    pub manufacturer: Option<String>,
    pub model_name: Option<String>,
    pub technology: Option<String>,
}

/// A metric source's value, when present and plausible.
pub open spec fn metric(o: Option<i64>) -> Option<int> {
    match o {
        Some(x) => if plausible(x as int) {
            Some(x as int)
        } else {
            None
        },
        None => None,
    }
}

/// A plausible result of a derived metric, else none.
pub open spec fn keep_plausible(x: int) -> Option<int> {
    if plausible(x) {
        Some(x)
    } else {
        None
    }
}

/// Energy in microwatt-hours: the direct source, else charge (microamp-hours)
/// times voltage (microvolts), rounded down.
pub open spec fn energy_spec(direct: Option<i64>, charge: Option<i64>, voltage: Option<i64>) -> Option<int> {
    match metric(direct) {
        Some(e) => Some(e),
        None => match (metric(charge), metric(voltage)) {
            (Some(c), Some(v)) => keep_plausible((c * v) / 1_000_000),
            _ => None,
        },
    }
}

/// Current in milliamps: microamps divided by 1000, rounded toward zero.
pub open spec fn current_spec(src: BatterySources) -> Option<i32> {
    match src.current_now {
        Some(c) => Some(
            (if c >= 0 {
                c / 1000
            } else {
                -((-c) / 1000)
            }) as i32,
        ),
        None => None,
    }
}

/// Power in microwatts: the direct source, else voltage times the magnitude
/// of the current, rounded down.
pub open spec fn power_spec(src: BatterySources) -> Option<int> {
    match metric(src.power_now) {
        Some(p) => Some(p),
        None => match (metric(src.voltage_now), current_spec(src)) {
            (Some(v), Some(c)) => keep_plausible(
                (v * (if c < 0 {
                    -c
                } else {
                    c as int
                })) / 1000,
            ),
            _ => None,
        },
    }
}

/// Health in hundredths of a percent: full over design energy, else full
/// over design charge, else 0 for unknown.
pub open spec fn health_spec(src: BatterySources) -> int {
    match (energy_spec(src.energy_full, src.charge_full, src.voltage_now), metric(src.energy_full_design)) {
        (Some(full), Some(design)) if design > 0 => (10_000 * full) / design,
        _ => match (metric(src.charge_full), metric(src.charge_full_design)) {
            (Some(full), Some(design)) if design > 0 => (10_000 * full) / design,
            _ => 0,
        },
    }
}

/// State of charge: the source when it is at most 100, else 0.
pub open spec fn capacity_spec(src: BatterySources) -> u8 {
    match src.capacity {
        Some(c) => if c <= 100 {
            c
        } else {
            0
        },
        None => 0,
    }
}

/// A text source, or "Unknown" when it is missing.
pub open spec fn text_or_unknown(o: Option<String>) -> Seq<char> {
    match o {
        Some(s) => s@,
        None => "Unknown"@,
    }
}

/// The reading a temperature query gives, in thousandths of a degree.
pub open spec fn query_milli(readings: Seq<Option<i32>>, n: int, battery: bool) -> Option<int> {
    match first_valid(readings, n, 0, battery) {
        Some(i) => Some(reading_milli(readings[i]->0, battery)),
        None => None,
    }
}

/// The published result of one polling cycle.
#[derive(Debug)]
pub struct BatteryInfo {
    pub status: String,
    pub capacity_percent: u8,
    /// Health in hundredths of a percent; 0 means unknown.
    pub health_hundredths: i64,
    pub cycles: Option<u32>,
    /// Battery temperature, in thousandths of a degree Celsius.
    pub temperature_millicelsius: Option<i64>,
    /// Microvolts.
    pub voltage_uv: Option<i64>,
    /// Milliamps.
    pub current_ma: Option<i32>,
    /// Microwatts.
    pub power_uw: Option<i64>,
    /// Microwatts.
    pub smoothed_power_uw: Option<i64>,
    pub manufacturer: String,
    pub model: String,
    pub technology: String,
    pub time_remaining_minutes: Option<u32>,
    /// Microwatt-hours.
    pub energy_now_uwh: Option<i64>,
    /// Microwatt-hours.
    pub energy_full_uwh: Option<i64>,
    pub power_trend: PowerTrend,
    /// CPU temperature, in thousandths of a degree Celsius.
    pub cpu_temperature_millicelsius: Option<i64>,
}

fn metric_exec(o: Option<i64>) -> (r: Option<i64>)
    ensures
        as_int(r) == metric(o),
{
    match o {
        Some(x) => if -METRIC_LIMIT <= x && x <= METRIC_LIMIT {
            Some(x)
        } else {
            None
        },
        None => None,
    }
}

fn keep_plausible_exec(x: i128) -> (r: Option<i64>)
    ensures
        as_int(r) == keep_plausible(x as int),
{
    if -(METRIC_LIMIT as i128) <= x && x <= METRIC_LIMIT as i128 {
        Some(x as i64)
    } else {
        None
    }
}

/// Energy in microwatt-hours from a direct source or from charge and voltage.
pub fn energy_from(direct: Option<i64>, charge: Option<i64>, voltage: Option<i64>) -> (r: Option<i64>)
    ensures
        as_int(r) == energy_spec(direct, charge, voltage),
{
    match metric_exec(direct) {
        Some(e) => Some(e),
        None => match (metric_exec(charge), metric_exec(voltage)) {
            (Some(c), Some(v)) => {
                proof {
                    assert(-(METRIC_LIMIT * METRIC_LIMIT) <= c * v <= METRIC_LIMIT * METRIC_LIMIT)
                        by (nonlinear_arith)
                        requires
                            plausible(c as int),
                            plausible(v as int),
                    ;
                }
                keep_plausible_exec(div_floor(c as i128 * v as i128, 1_000_000))
            },
            _ => None,
        },
    }
}

/// Energy now and energy when full, in microwatt-hours, each from its
/// direct source or else from charge and voltage.
pub fn read_energy_values(src: &BatterySources) -> (r: (Option<i64>, Option<i64>))
    ensures
        as_int(r.0) == energy_spec(src.energy_now, src.charge_now, src.voltage_now),
        as_int(r.1) == energy_spec(src.energy_full, src.charge_full, src.voltage_now),
{
    (
        energy_from(src.energy_now, src.charge_now, src.voltage_now),
        energy_from(src.energy_full, src.charge_full, src.voltage_now),
    )
}

/// Current in milliamps.
pub fn read_current(src: &BatterySources) -> (r: Option<i32>)
    ensures
        r == current_spec(*src),
{
    match src.current_now {
        Some(c) => if c >= 0 {
            Some(c / 1000)
        } else {
            let m = -(c as i64);
            Some(-(m / 1000) as i32)
        },
        None => None,
    }
}

/// Power in microwatts, from the direct source or else from voltage and
/// current.
pub fn read_power(src: &BatterySources) -> (r: Option<i64>)
    ensures
        as_int(r) == power_spec(*src),
{
    match metric_exec(src.power_now) {
        Some(p) => Some(p),
        None => match (metric_exec(src.voltage_now), read_current(src)) {
            (Some(v), Some(c)) => {
                let mag: i128 = if c < 0 {
                    -(c as i128)
                } else {
                    c as i128
                };
                proof {
                    assert(-(METRIC_LIMIT * 0x1_0000_0000) <= v * mag <= METRIC_LIMIT * 0x1_0000_0000)
                        by (nonlinear_arith)
                        requires
                            plausible(v as int),
                            0 <= mag <= 0x1_0000_0000,
                    ;
                }
                keep_plausible_exec(div_floor(v as i128 * mag, 1000))
            },
            _ => None,
        },
    }
}

fn ratio_hundredths(full: i64, design: i64) -> (r: i64)
    requires
        plausible(full as int),
        plausible(design as int),
        design > 0,
    ensures
        r == (10_000 * full) / (design as int),
{
    proof {
        let q = (10_000 * full) / (design as int);
        assert(-(10_000 * METRIC_LIMIT) <= q <= 10_000 * METRIC_LIMIT) by (nonlinear_arith)
            requires
                q == (10_000 * full) / (design as int),
                plausible(full as int),
                design > 0,
        ;
    }
    div_floor(10_000 * full as i128, design as i128) as i64
}

/// Battery health in hundredths of a percent; 0 when unknown.
pub fn read_health(src: &BatterySources) -> (r: i64)
    ensures
        r == health_spec(*src),
{
    let full = energy_from(src.energy_full, src.charge_full, src.voltage_now);
    if let (Some(f), Some(d)) = (full, metric_exec(src.energy_full_design)) {
        if d > 0 {
            return ratio_hundredths(f, d);
        }
    }
    if let (Some(f), Some(d)) = (metric_exec(src.charge_full), metric_exec(src.charge_full_design)) {
        if d > 0 {
            return ratio_hundredths(f, d);
        }
    }
    0
}

/// The estimator after one cycle that saw `power` and `energy`: a power
/// value feeds the smoothing, and joins the history when the energy is
/// known too.
pub open spec fn estimator_step(e: EstimatorView, power: Option<int>, energy: Option<int>, timestamp: u64) -> EstimatorView {
    match power {
        None => e,
        Some(p) => EstimatorView {
            smoothed: Some(ema_next(e.smoothed, p) as i64),
            window: bounded_push(e.window, p as i64, ROLLING_WINDOW_SIZE as nat),
            history: match energy {
                Some(en) => bounded_push(
                    e.history,
                    PowerSample { timestamp, power_uw: p as i64, energy_uwh: en as i64 },
                    MAX_HISTORY_SIZE as nat,
                ),
                None => e.history,
            },
        },
    }
}

/// `r` records the raw facts of `src` at `timestamp`, with battery
/// temperature `temp`.
pub open spec fn reading_matches(r: BatteryReading, src: BatterySources, timestamp: u64, temp: Option<int>) -> bool {
    &&& r.timestamp == timestamp
    &&& r.capacity_percent == capacity_spec(src)
    &&& as_int(r.energy_now_uwh) == energy_spec(src.energy_now, src.charge_now, src.voltage_now)
    &&& as_int(r.energy_full_uwh) == energy_spec(src.energy_full, src.charge_full, src.voltage_now)
    &&& as_int(r.power_now_uw) == power_spec(src)
    &&& as_int(r.voltage_uv) == metric(src.voltage_now)
    &&& r.current_ma == current_spec(src)
    &&& r.status@ == text_or_unknown(src.status)
    &&& as_int(r.temperature_millicelsius) == temp
}

/// The last-known reading after a query: the fresh reading when a sensor
/// gave a valid value, else the one before.
pub open spec fn query_cached(
    before: Option<TemperatureReading>,
    after: Option<TemperatureReading>,
    sensors: Seq<crate::sensors::TemperatureSensor>,
    readings: Seq<Option<i32>>,
    battery: bool,
    timestamp: u64,
) -> bool {
    match first_valid(readings, sensors.len() as int, 0, battery) {
        None => after == before,
        Some(i) => after is Some && reading_of(after->0, sensors, readings, i, battery, timestamp),
    }
}

/// What one polling cycle with the battery present does: `old_v` is the
/// sampler before, `new` after, and `info` what it published.
pub open spec fn cycle_result(
    old_v: MonitorView,
    new: MonitorView,
    info: BatteryInfo,
    src: BatterySources,
    cpu_readings: Seq<Option<i32>>,
    battery_readings: Seq<Option<i32>>,
    timestamp: u64,
) -> bool {
    let power = power_spec(src);
    let energy_now = energy_spec(src.energy_now, src.charge_now, src.voltage_now);
    let battery_temp = query_milli(
        battery_readings,
        old_v.temperatures.battery_sensors@.len() as int,
        true,
    );
    &&& new.estimator == estimator_step(old_v.estimator, power, energy_now, timestamp)
    &&& new.readings == bounded_push(old_v.readings, new.readings.last(), MAX_HISTORY_SIZE as nat)
    &&& reading_matches(new.readings.last(), src, timestamp, battery_temp)
    &&& new.last_update == timestamp
    &&& new.temperatures.cpu_sensors == old_v.temperatures.cpu_sensors
    &&& new.temperatures.battery_sensors == old_v.temperatures.battery_sensors
    &&& query_cached(
        old_v.temperatures.last_cpu_temp,
        new.temperatures.last_cpu_temp,
        old_v.temperatures.cpu_sensors@,
        cpu_readings,
        false,
        timestamp,
    )
    &&& query_cached(
        old_v.temperatures.last_battery_temp,
        new.temperatures.last_battery_temp,
        old_v.temperatures.battery_sensors@,
        battery_readings,
        true,
        timestamp,
    )
    &&& info.status@ == text_or_unknown(src.status)
    &&& info.capacity_percent == capacity_spec(src)
    &&& info.health_hundredths == health_spec(src)
    &&& info.cycles == src.cycle_count
    &&& as_int(info.temperature_millicelsius) == battery_temp
    &&& as_int(info.voltage_uv) == metric(src.voltage_now)
    &&& info.current_ma == current_spec(src)
    &&& as_int(info.power_uw) == power
    &&& info.smoothed_power_uw == new.estimator.smoothed
    &&& info.manufacturer@ == text_or_unknown(src.manufacturer)
    &&& info.model@ == text_or_unknown(src.model_name)
    &&& info.technology@ == text_or_unknown(src.technology)
    &&& info.time_remaining_minutes == time_remaining_spec(new.estimator, new.readings.last())
    &&& as_int(info.energy_now_uwh) == energy_now
    &&& as_int(info.energy_full_uwh) == energy_spec(src.energy_full, src.charge_full, src.voltage_now)
    &&& info.power_trend == trend_spec(new.estimator.history)
    &&& as_int(info.cpu_temperature_millicelsius) == query_milli(
        cpu_readings,
        old_v.temperatures.cpu_sensors@.len() as int,
        false,
    )
}

/// The battery sampler: reading history, power estimator and sensor catalog.
#[derive(Debug)]
pub struct BatteryMonitor {
    readings_history: VecDeque<BatteryReading>,
    estimator: PowerEstimator,
    temperature_monitor: TemperatureMonitor,
    last_update: u64,
}

/// What a [`BatteryMonitor`] holds besides its sensor catalog.
pub struct MonitorView {
    pub estimator: EstimatorView,
    pub readings: Seq<BatteryReading>,
    pub last_update: u64,
    pub temperatures: TemperatureMonitor,
}

impl View for BatteryMonitor {
    type V = MonitorView;

    closed spec fn view(&self) -> MonitorView {
        MonitorView {
            estimator: self.estimator@,
            readings: self.readings_history@,
            last_update: self.last_update,
            temperatures: self.temperature_monitor,
        }
    }
}

fn copy_text(o: &Option<String>) -> (r: String)
    ensures
        r@ == text_or_unknown(*o),
{
    match o {
        Some(s) => s.clone(),
        None => "Unknown".to_owned(),
    }
}

impl BatteryMonitor {
    /// Bounded histories and a well-formed estimator.
    pub open spec fn wf(&self) -> bool {
        &&& estimator_wf(self@.estimator)
        &&& self@.readings.len() <= MAX_HISTORY_SIZE
    }

    /// A sampler with empty histories, using the given sensor catalog.
    pub fn new(temperature_monitor: TemperatureMonitor) -> (m: BatteryMonitor)
        ensures
            m.wf(),
            m@.estimator.smoothed is None,
            m@.estimator.window.len() == 0,
            m@.estimator.history.len() == 0,
            m@.readings.len() == 0,
            m@.last_update == 0,
            m@.temperatures == temperature_monitor,
    {
        let estimator = PowerEstimator::new();
        BatteryMonitor { readings_history: VecDeque::new(), estimator, temperature_monitor, last_update: 0 }
    }

    /// The power estimator.
    pub fn estimator(&self) -> (e: &PowerEstimator)
        ensures
            e@ == self@.estimator,
    {
        &self.estimator
    }

    /// The temperature sensor catalog.
    pub fn temperature_monitor(&self) -> (t: &TemperatureMonitor)
        ensures
            *t == self@.temperatures,
    {
        &self.temperature_monitor
    }

    /// Number of readings in the history.
    pub fn readings_len(&self) -> (r: usize)
        ensures
            r == self@.readings.len(),
    {
        self.readings_history.len()
    }

    /// The capacity of each reading in the history, oldest first.
    pub fn capacity_history(&self) -> (r: Vec<u8>)
        ensures
            r@.len() == self@.readings.len(),
            forall|i: int| 0 <= i < r@.len() ==> r@[i] == self@.readings[i].capacity_percent,
    {
        let mut r: Vec<u8> = Vec::new();
        let mut i: usize = 0;
        while i < self.readings_history.len()
            invariant
                i <= self@.readings.len(),
                r@.len() == i,
                forall|j: int| 0 <= j < i ==> r@[j] == self@.readings[j].capacity_percent,
            decreases self@.readings.len() - i,
        {
            r.push(self.readings_history[i].capacity_percent);
            i = i + 1;
        }
        r
    }

    /// Timestamp of the last cycle; 0 before the first.
    pub fn last_update(&self) -> (r: u64)
        ensures
            r == self@.last_update,
    {
        self.last_update
    }

    /// The current CPU temperature; see [`TemperatureMonitor::get_cpu_temp`].
    pub fn get_cpu_temperature(&mut self, readings: &Vec<Option<i32>>, timestamp: u64) -> (r: Option<TemperatureReading>)
        ensures
            final(self)@.estimator == old(self)@.estimator,
            final(self)@.readings == old(self)@.readings,
            final(self)@.last_update == old(self)@.last_update,
            final(self)@.temperatures.cpu_sensors == old(self)@.temperatures.cpu_sensors,
            final(self)@.temperatures.battery_sensors == old(self)@.temperatures.battery_sensors,
            final(self)@.temperatures.last_battery_temp == old(self)@.temperatures.last_battery_temp,
            match first_valid(readings@, old(self)@.temperatures.cpu_sensors@.len() as int, 0, false) {
                None => r is None && final(self)@.temperatures.last_cpu_temp == old(self)@.temperatures.last_cpu_temp,
                Some(i) => {
                    &&& r is Some
                    &&& reading_of(r->0, old(self)@.temperatures.cpu_sensors@, readings@, i, false, timestamp)
                    &&& final(self)@.temperatures.last_cpu_temp is Some
                    &&& reading_of(
                        final(self)@.temperatures.last_cpu_temp->0,
                        old(self)@.temperatures.cpu_sensors@,
                        readings@,
                        i,
                        false,
                        timestamp,
                    )
                },
            },
    {
        self.temperature_monitor.get_cpu_temp(readings, timestamp)
    }

    /// The current battery temperature; see
    /// [`TemperatureMonitor::get_battery_temp`].
    pub fn get_battery_temperature(&mut self, readings: &Vec<Option<i32>>, timestamp: u64) -> (r: Option<TemperatureReading>)
        ensures
            final(self)@.estimator == old(self)@.estimator,
            final(self)@.readings == old(self)@.readings,
            final(self)@.last_update == old(self)@.last_update,
            final(self)@.temperatures.cpu_sensors == old(self)@.temperatures.cpu_sensors,
            final(self)@.temperatures.battery_sensors == old(self)@.temperatures.battery_sensors,
            final(self)@.temperatures.last_cpu_temp == old(self)@.temperatures.last_cpu_temp,
            match first_valid(readings@, old(self)@.temperatures.battery_sensors@.len() as int, 0, true) {
                None => r is None && final(self)@.temperatures.last_battery_temp == old(self)@.temperatures.last_battery_temp,
                Some(i) => {
                    &&& r is Some
                    &&& reading_of(r->0, old(self)@.temperatures.battery_sensors@, readings@, i, true, timestamp)
                    &&& final(self)@.temperatures.last_battery_temp is Some
                    &&& reading_of(
                        final(self)@.temperatures.last_battery_temp->0,
                        old(self)@.temperatures.battery_sensors@,
                        readings@,
                        i,
                        true,
                        timestamp,
                    )
                },
            },
    {
        self.temperature_monitor.get_battery_temp(readings, timestamp)
    }
    /// One polling cycle. With the battery absent nothing changes and there
    /// is no result. Otherwise the raw sources are turned into a reading
    /// (energy, power and health through their fallback chains), the
    /// temperature catalog is queried (`cpu_readings` and
    /// `battery_readings` hold the current raw value of each sensor), a
    /// power value feeds the estimator, and the snapshot is returned.
    pub fn get_battery_info(
        &mut self,
        src: &BatterySources,
        cpu_readings: &Vec<Option<i32>>,
        battery_readings: &Vec<Option<i32>>,
        timestamp: u64,
    ) -> (r: Option<BatteryInfo>)
        requires
            old(self).wf(),
        ensures
            final(self).wf(),
            !src.present ==> r is None && final(self)@ == old(self)@,
            src.present ==> r is Some && cycle_result(
                old(self)@,
                final(self)@,
                r->0,
                *src,
                cpu_readings@,
                battery_readings@,
                timestamp,
            ),
    {
        if !src.present {
            return None;
        }
        let status = copy_text(&src.status);
        let capacity: u8 = match src.capacity {
            Some(c) => if c <= 100 {
                c
            } else {
                0
            },
            None => 0,
        };
        let voltage_uv = metric_exec(src.voltage_now);
        let current_ma = read_current(src);
        let (energy_now_uwh, energy_full_uwh) = read_energy_values(src);
        let power_uw = read_power(src);
        let cpu = self.temperature_monitor.get_cpu_temp(cpu_readings, timestamp);
        let bat = self.temperature_monitor.get_battery_temp(battery_readings, timestamp);
        let cpu_temperature = match &cpu {
            Some(x) => Some(x.raw_millicelsius),
            None => None,
        };
        let battery_temperature = match &bat {
            Some(x) => Some(x.raw_millicelsius),
            None => None,
        };
        if let Some(p) = power_uw {
            self.estimator.update_smoothed_power(p);
            if let Some(e) = energy_now_uwh {
                self.estimator.record_sample(PowerSample { timestamp, power_uw: p, energy_uwh: e });
            }
        }
        self.last_update = timestamp;
        let reading = BatteryReading {
            timestamp,
            capacity_percent: capacity,
            energy_now_uwh,
            energy_full_uwh,
            power_now_uw: power_uw,
            voltage_uv,
            current_ma,
            status: status.clone(),
            temperature_millicelsius: battery_temperature,
        };
        let time_remaining_minutes = self.estimator.calculate_time_remaining(&reading);
        push_bounded(&mut self.readings_history, reading, MAX_HISTORY_SIZE);
        let health_hundredths = read_health(src);
        let power_trend = self.estimator.get_power_trend();
        Some(
            BatteryInfo {
                status,
                capacity_percent: capacity,
                health_hundredths,
                cycles: src.cycle_count,
                temperature_millicelsius: battery_temperature,
                voltage_uv,
                current_ma,
                power_uw,
                smoothed_power_uw: self.estimator.smoothed_power(),
                manufacturer: copy_text(&src.manufacturer),
                model: copy_text(&src.model_name),
                technology: copy_text(&src.technology),
                time_remaining_minutes,
                energy_now_uwh,
                energy_full_uwh,
                power_trend,
                cpu_temperature_millicelsius: cpu_temperature,
            },
        )
    }
}

} // verus!
