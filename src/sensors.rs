//! Sensor catalog: which hardware-monitor channels are genuine CPU-package or
//! battery-cell temperature sources, in what order they are trusted, and which
//! one answers a query.
use vstd::prelude::*;
use vstd::string::*;
use crate::chars::{contains, seq_contains, seq_starts_with, starts_with, str_eq};

verus! {

/// Lowest accepted temperature, in thousandths of a degree Celsius.
pub const MIN_VALID_TEMP_MILLI: i64 = 10_000;

/// Highest accepted temperature, in thousandths of a degree Celsius.
pub const MAX_VALID_TEMP_MILLI: i64 = 110_000;

/// Hardware-monitor driver families that can carry a CPU temperature.
#[derive(Clone, Copy, Debug, PartialEq, Eq, Structural)]
pub enum DeviceFamily {
    Coretemp,
    K10Temp,
    ZenPower,
    AmdGpu,
    Other,
}

/// The family named by a hardware-monitor device tag.
pub open spec fn family_spec(tag: Seq<char>) -> DeviceFamily {
    if tag == "coretemp"@ {
        DeviceFamily::Coretemp
    } else if tag == "k10temp"@ {
        DeviceFamily::K10Temp
    } else if tag == "zenpower"@ {
        DeviceFamily::ZenPower
    } else if tag == "amdgpu"@ {
        DeviceFamily::AmdGpu
    } else {
        DeviceFamily::Other
    }
}

/// Trust rank of a family: lower is preferred.
pub open spec fn family_priority(f: DeviceFamily) -> nat {
    match f {
        DeviceFamily::Coretemp => 1,
        DeviceFamily::K10Temp => 2,
        DeviceFamily::ZenPower => 3,
        DeviceFamily::AmdGpu => 4,
        DeviceFamily::Other => 9,
    }
}

/// Whether a channel of family `f`, with the given lower-cased label (if
/// any), is the package or die sensor of a CPU.
pub open spec fn cpu_label_accepted(f: DeviceFamily, lowered: Option<Seq<char>>) -> bool {
    match f {
        DeviceFamily::Coretemp => match lowered {
            None => true,
            Some(l) => seq_contains(l, "package"@) || l == "package id 0"@ || seq_contains(
                l,
                "package id"@,
            ),
        },
        DeviceFamily::K10Temp => match lowered {
            None => true,
            Some(l) => seq_contains(l, "tctl"@) || seq_contains(l, "tdie"@),
        },
        DeviceFamily::ZenPower => match lowered {
            None => true,
            Some(l) => seq_contains(l, "tctl"@) || seq_contains(l, "tdie"@) || seq_contains(
                l,
                "die"@,
            ),
        },
        DeviceFamily::AmdGpu => match lowered {
            None => false,
            Some(l) => seq_contains(l, "edge"@),
        },
        DeviceFamily::Other => false,
    }
}

/// A device group that is a virtual or ACPI placeholder, never real silicon.
pub open spec fn is_virtual_spec(tag: Seq<char>) -> bool {
    tag == "acpitz"@ || seq_contains(tag, "virtual"@)
}

/// A battery temperature in thousandths of a degree, from a raw value whose
/// unit depends on the kernel: thousandths above 1000, tenths above 200,
/// whole degrees otherwise.
pub open spec fn normalized_battery_milli(raw: int) -> int {
    if raw > 1000 {
        raw
    } else if raw > 200 {
        raw * 100
    } else {
        raw * 1000
    }
}

/// A temperature, in thousandths of a degree, inside the accepted band.
pub open spec fn valid_temp_spec(milli: int) -> bool {
    MIN_VALID_TEMP_MILLI <= milli <= MAX_VALID_TEMP_MILLI
}

/// What the lower-case mapping of Unicode gives for a string.
pub uninterp spec fn lower_of(s: Seq<char>) -> Seq<char>;

/// Relies on `str::to_lowercase`: the result is the Unicode lower-case
/// mapping of the characters, which depends on them alone.
#[verifier::external_body]
fn lowercase(s: &str) -> (r: String)
    ensures
        r@ == lower_of(s@),
{
    s.to_lowercase()
}

/// The family named by a hardware-monitor device tag.
pub fn family_of(tag: &str) -> (f: DeviceFamily)
    ensures
        f == family_spec(tag@),
{
    if str_eq(tag, "coretemp") {
        DeviceFamily::Coretemp
    } else if str_eq(tag, "k10temp") {
        DeviceFamily::K10Temp
    } else if str_eq(tag, "zenpower") {
        DeviceFamily::ZenPower
    } else if str_eq(tag, "amdgpu") {
        DeviceFamily::AmdGpu
    } else {
        DeviceFamily::Other
    }
}

/// Trust rank of a family: lower is preferred.
pub fn priority_of(f: DeviceFamily) -> (p: u8)
    ensures
        p as nat == family_priority(f),
{
    match f {
        DeviceFamily::Coretemp => 1,
        DeviceFamily::K10Temp => 2,
        DeviceFamily::ZenPower => 3,
        DeviceFamily::AmdGpu => 4,
        DeviceFamily::Other => 9,
    }
}

/// The acceptance rule of one family, applied to an already lower-cased label.
pub fn label_accepted(f: DeviceFamily, lowered: Option<&str>) -> (r: bool)
    ensures
        r == cpu_label_accepted(
            f,
            match lowered {
                Some(l) => Some(l@),
                None => None,
            },
        ),
{
    match f {
        DeviceFamily::Coretemp => match lowered {
            None => true,
            Some(l) => contains(l, "package") || str_eq(l, "package id 0") || contains(
                l,
                "package id",
            ),
        },
        DeviceFamily::K10Temp => match lowered {
            None => true,
            Some(l) => contains(l, "tctl") || contains(l, "tdie"),
        },
        DeviceFamily::ZenPower => match lowered {
            None => true,
            Some(l) => contains(l, "tctl") || contains(l, "tdie") || contains(l, "die"),
        },
        DeviceFamily::AmdGpu => match lowered {
            None => false,
            Some(l) => contains(l, "edge"),
        },
        DeviceFamily::Other => false,
    }
}

/// Whether a channel of the device `device_name`, with an optional label,
/// is a CPU temperature worth keeping. Labels are compared without regard
/// to case.
pub fn is_cpu_temp_sensor(device_name: &str, label: &Option<String>) -> (r: bool)
    ensures
        r == cpu_label_accepted(
            family_spec(device_name@),
            match label {
                Some(l) => Some(lower_of(l@)),
                None => None,
            },
        ),
{
    let f = family_of(device_name);
    match label {
        Some(l) => {
            let lowered = lowercase(l.as_str());
            label_accepted(f, Some(lowered.as_str()))
        },
        None => label_accepted(f, None),
    }
}

/// Whether a device group is a virtual or ACPI placeholder to be skipped.
pub fn is_virtual_device(tag: &str) -> (r: bool)
    ensures
        r == is_virtual_spec(tag@),
{
    str_eq(tag, "acpitz") || contains(tag, "virtual")
}

/// A raw battery temperature brought to thousandths of a degree.
pub fn normalize_battery_temperature(raw: i32) -> (r: i64)
    ensures
        r as int == normalized_battery_milli(raw as int),
{
    if raw > 1000 {
        raw as i64
    } else if raw > 200 {
        raw as i64 * 100
    } else {
        raw as i64 * 1000
    }
}

/// Whether a temperature, in thousandths of a degree, is inside the band
/// of plausible readings.
pub fn is_valid_temperature(milli: i64) -> (r: bool)
    ensures
        r == valid_temp_spec(milli as int),
{
    MIN_VALID_TEMP_MILLI <= milli && milli <= MAX_VALID_TEMP_MILLI
}

/// A discovered temperature source. It is never changed once discovered.
#[derive(Debug)]
pub struct TemperatureSensor {
    /// Device family tag ("coretemp", "k10temp", "battery", "thermal_zone", ...).
    pub sensor_type: String,
    /// Where the raw value is read from.
    pub path: String,
    /// Optional sub-channel name.
    pub label: Option<String>,
    /// Human-readable name.
    pub name: String,
}

/// The characters held by a [`TemperatureSensor`].
pub struct SensorView {
    pub sensor_type: Seq<char>,
    pub path: Seq<char>,
    pub label: Option<Seq<char>>,
    pub name: Seq<char>,
}

/// The characters of an optional string.
pub open spec fn opt_view(o: Option<String>) -> Option<Seq<char>> {
    match o {
        Some(s) => Some(s@),
        None => None,
    }
}

/// The lower-cased characters of an optional string.
pub open spec fn opt_lower(o: Option<String>) -> Option<Seq<char>> {
    match o {
        Some(s) => Some(lower_of(s@)),
        None => None,
    }
}

impl View for TemperatureSensor {
    type V = SensorView;

    open spec fn view(&self) -> SensorView {
        SensorView {
            sensor_type: self.sensor_type@,
            path: self.path@,
            label: opt_view(self.label),
            name: self.name@,
        }
    }
}

/// The characters held by each sensor of a sequence.
pub open spec fn sensors_view(s: Seq<TemperatureSensor>) -> Seq<SensorView> {
    s.map_values(|x: TemperatureSensor| x@)
}

proof fn lemma_sensors_view_push(s: Seq<TemperatureSensor>, x: TemperatureSensor)
    ensures
        sensors_view(s.push(x)) == sensors_view(s).push(x@),
{
    assert(sensors_view(s.push(x)) =~= sensors_view(s).push(x@));
}

fn copy_opt_string(o: &Option<String>) -> (r: Option<String>)
    ensures
        opt_view(r) == opt_view(*o),
{
    match o {
        Some(s) => Some(s.clone()),
        None => None,
    }
}

impl TemperatureSensor {
    /// A copy with the same characters in every field.
    pub fn copy(&self) -> (r: TemperatureSensor)
        ensures
            r@ == self@,
    {
        TemperatureSensor {
            sensor_type: self.sensor_type.clone(),
            path: self.path.clone(),
            label: copy_opt_string(&self.label),
            name: self.name.clone(),
        }
    }
}

/// One numbered temperature channel of a hardware-monitor group, as read
/// from the host.
pub struct HwmonChannel {
    /// The channel number as it appears in the file names ("1" for temp1).
    pub number: String,
    /// Where the channel's value is read from.
    pub input_path: String,
    /// The channel's label, if it has one.
    pub label: Option<String>,
    /// The value read at discovery, in thousandths of a degree; `None` when
    /// it could not be read or parsed.
    pub raw: Option<i32>,
}

/// One hardware-monitor device group, as read from the host.
pub struct HwmonGroup {
    /// The device-family tag; `None` when it could not be read.
    pub device_name: Option<String>,
    /// Its temperature channels, in the order they were listed.
    pub channels: Vec<HwmonChannel>,
}

/// A channel of `device` is kept: its family accepts its label and its
/// current value is a valid temperature.
pub open spec fn cpu_channel_kept(device: Seq<char>, c: HwmonChannel) -> bool {
    &&& cpu_label_accepted(family_spec(device), opt_lower(c.label))
    &&& c.raw is Some
    &&& valid_temp_spec(c.raw->0 as int)
}

/// The sensor made of a kept channel.
pub open spec fn cpu_sensor_of(device: Seq<char>, c: HwmonChannel) -> SensorView {
    SensorView {
        sensor_type: device,
        path: c.input_path@,
        label: opt_view(c.label),
        name: device + " "@ + match c.label {
            Some(l) => l@,
            None => "temp"@ + c.number@,
        },
    }
}

/// The sensors kept from the channels of one device, in channel order.
pub open spec fn channel_sensors(device: Seq<char>, chans: Seq<HwmonChannel>) -> Seq<SensorView>
    decreases chans.len(),
{
    if chans.len() == 0 {
        seq![]
    } else {
        let prev = channel_sensors(device, chans.drop_last());
        if cpu_channel_kept(device, chans.last()) {
            prev.push(cpu_sensor_of(device, chans.last()))
        } else {
            prev
        }
    }
}

/// The sensors kept from one group: none from an unnamed or virtual group.
pub open spec fn group_sensors(g: HwmonGroup) -> Seq<SensorView> {
    match g.device_name {
        None => seq![],
        Some(d) => if is_virtual_spec(d@) {
            seq![]
        } else {
            channel_sensors(d@, g.channels@)
        },
    }
}

/// All CPU sensors kept, in discovery order.
pub open spec fn cpu_candidates(groups: Seq<HwmonGroup>) -> Seq<SensorView>
    decreases groups.len(),
{
    if groups.len() == 0 {
        seq![]
    } else {
        cpu_candidates(groups.drop_last()) + group_sensors(groups.last())
    }
}

/// The trust rank of a sensor's family.
pub open spec fn sensor_priority(v: SensorView) -> nat {
    family_priority(family_spec(v.sensor_type))
}

/// The sensors of `s` with priority `p`, in their order in `s`.
pub open spec fn with_priority(s: Seq<SensorView>, p: nat) -> Seq<SensorView>
    decreases s.len(),
{
    if s.len() == 0 {
        seq![]
    } else if sensor_priority(s.last()) == p {
        with_priority(s.drop_last(), p).push(s.last())
    } else {
        with_priority(s.drop_last(), p)
    }
}

/// `s` stably ordered by family priority: every priority rank in turn,
/// each keeping the order of `s`.
pub open spec fn by_priority(s: Seq<SensorView>) -> Seq<SensorView> {
    with_priority(s, 1) + with_priority(s, 2) + with_priority(s, 3) + with_priority(s, 4)
        + with_priority(s, 9)
}

/// Appends to `out` the sensors of `s` whose priority is `p`, in order.
fn push_with_priority(s: &Vec<TemperatureSensor>, p: u8, out: &mut Vec<TemperatureSensor>)
    ensures
        sensors_view(final(out)@) == sensors_view(old(out)@) + with_priority(
            sensors_view(s@),
            p as nat,
        ),
{
    let mut i: usize = 0;
    while i < s.len()
        invariant
            i <= s@.len(),
            sensors_view(out@) == sensors_view(old(out)@) + with_priority(
                sensors_view(s@.subrange(0, i as int)),
                p as nat,
            ),
        decreases s@.len() - i,
    {
        let ghost before = out@;
        assert(sensors_view(s@.subrange(0, i + 1)).drop_last() =~= sensors_view(
            s@.subrange(0, i as int),
        ));
        assert(sensors_view(s@.subrange(0, i + 1)).last() == s@[i as int]@);
        if priority_of(family_of(s[i].sensor_type.as_str())) == p {
            out.push(s[i].copy());
            proof {
                lemma_sensors_view_push(before, out@.last());
            }
        }
        i = i + 1;
    }
    assert(s@.subrange(0, s@.len() as int) =~= s@);
}

/// The sensors of `s` stably ordered by family priority.
pub fn order_by_priority(s: &Vec<TemperatureSensor>) -> (r: Vec<TemperatureSensor>)
    ensures
        sensors_view(r@) == by_priority(sensors_view(s@)),
{
    let mut r: Vec<TemperatureSensor> = Vec::new();
    assert(sensors_view(r@) =~= seq![]);
    push_with_priority(s, 1, &mut r);
    push_with_priority(s, 2, &mut r);
    push_with_priority(s, 3, &mut r);
    push_with_priority(s, 4, &mut r);
    push_with_priority(s, 9, &mut r);
    assert(seq![] + with_priority(sensors_view(s@), 1) =~= with_priority(sensors_view(s@), 1));
    r
}

/// Appends to `out` the sensors kept from the channels of `device`.
fn push_channel_sensors(device: &str, chans: &Vec<HwmonChannel>, out: &mut Vec<TemperatureSensor>)
    ensures
        sensors_view(final(out)@) == sensors_view(old(out)@) + channel_sensors(device@, chans@),
{
    let mut i: usize = 0;
    assert(sensors_view(out@) + channel_sensors(device@, chans@.subrange(0, 0)) =~= sensors_view(
        out@,
    ));
    while i < chans.len()
        invariant
            i <= chans@.len(),
            sensors_view(out@) == sensors_view(old(out)@) + channel_sensors(
                device@,
                chans@.subrange(0, i as int),
            ),
        decreases chans@.len() - i,
    {
        let c = &chans[i];
        assert(chans@.subrange(0, i + 1).drop_last() =~= chans@.subrange(0, i as int));
        assert(chans@.subrange(0, i + 1).last() == *c);
        let ok = match c.raw {
            Some(raw) => is_cpu_temp_sensor(device, &c.label) && is_valid_temperature(raw as i64),
            None => false,
        };
        if ok {
            let mut name = device.to_owned();
            name.append(" ");
            match &c.label {
                Some(l) => name.append(l.as_str()),
                None => {
                    name.append("temp");
                    name.append(c.number.as_str());
                },
            }
            let sensor = TemperatureSensor {
                sensor_type: device.to_owned(),
                path: c.input_path.clone(),
                label: copy_opt_string(&c.label),
                name,
            };
            let ghost before = out@;
            out.push(sensor);
            proof {
                lemma_sensors_view_push(before, out@.last());
                if c.label is None {
                    assert(device@ + " "@ + "temp"@ + c.number@ =~= device@ + " "@ + ("temp"@
                        + c.number@));
                }
                assert(out@.last()@ == cpu_sensor_of(device@, *c));
                assert(sensors_view(out@) =~= sensors_view(old(out)@) + channel_sensors(
                    device@,
                    chans@.subrange(0, i + 1),
                ));
            }
        } else {
            assert(!cpu_channel_kept(device@, *c));
        }
        i = i + 1;
    }
    assert(chans@.subrange(0, chans@.len() as int) =~= chans@);
}

/// Every CPU sensor found in the hardware-monitor groups, in discovery
/// order: groups in order, channels in order within each.
pub fn collect_cpu_candidates(groups: &Vec<HwmonGroup>) -> (r: Vec<TemperatureSensor>)
    ensures
        sensors_view(r@) == cpu_candidates(groups@),
{
    let mut r: Vec<TemperatureSensor> = Vec::new();
    let mut i: usize = 0;
    assert(sensors_view(r@) =~= seq![]);
    while i < groups.len()
        invariant
            i <= groups@.len(),
            sensors_view(r@) == cpu_candidates(groups@.subrange(0, i as int)),
        decreases groups@.len() - i,
    {
        let g = &groups[i];
        assert(groups@.subrange(0, i + 1).drop_last() =~= groups@.subrange(0, i as int));
        assert(groups@.subrange(0, i + 1).last() == *g);
        match &g.device_name {
            Some(d) => {
                if !is_virtual_device(d.as_str()) {
                    push_channel_sensors(d.as_str(), &g.channels, &mut r);
                } else {
                    assert(sensors_view(r@) =~= sensors_view(r@) + group_sensors(*g));
                }
            },
            None => {
                assert(sensors_view(r@) =~= sensors_view(r@) + group_sensors(*g));
            },
        }
        i = i + 1;
    }
    assert(groups@.subrange(0, groups@.len() as int) =~= groups@);
    r
}

/// The CPU sensors of the host, most trusted family first; within a family,
/// in discovery order.
pub fn discover_cpu_sensors(groups: &Vec<HwmonGroup>) -> (r: Vec<TemperatureSensor>)
    ensures
        sensors_view(r@) == by_priority(cpu_candidates(groups@)),
{
    let found = collect_cpu_candidates(groups);
    order_by_priority(&found)
}

/// A power-supply device, as read from the host.
pub struct SupplyEntry {
    /// The device's name ("BAT0", "AC", ...).
    pub name: String,
    /// Where its temperature is read from.
    pub temp_path: String,
    /// The raw temperature read at discovery; `None` when the device has
    /// no temperature, or it could not be read or parsed.
    pub temp_raw: Option<i32>,
}

/// A thermal zone, as read from the host.
pub struct ThermalZoneEntry {
    /// The zone's name ("thermal_zone0", ...).
    pub name: String,
    /// The zone's declared type; `None` when it could not be read.
    pub zone_type: Option<String>,
    /// Where its temperature is read from.
    pub temp_path: String,
    /// The raw temperature read at discovery; `None` when there is none, or
    /// it could not be read or parsed.
    pub temp_raw: Option<i32>,
}

/// A raw battery value reads as a valid temperature once normalized.
pub open spec fn battery_raw_ok(raw: Option<i32>) -> bool {
    raw is Some && valid_temp_spec(normalized_battery_milli(raw->0 as int))
}

/// A power-supply device named like a battery, with a valid temperature.
pub open spec fn supply_kept(e: SupplyEntry) -> bool {
    &&& (seq_starts_with(e.name@, "BAT"@) || seq_starts_with(e.name@, "battery"@))
    &&& battery_raw_ok(e.temp_raw)
}

/// The battery sensor made of a kept power-supply device.
pub open spec fn supply_sensor(e: SupplyEntry) -> SensorView {
    SensorView {
        sensor_type: "battery"@,
        path: e.temp_path@,
        label: Some(e.name@),
        name: "Battery "@ + e.name@,
    }
}

/// A thermal zone of type "battery", with a valid temperature.
pub open spec fn zone_kept(z: ThermalZoneEntry) -> bool {
    &&& seq_starts_with(z.name@, "thermal_zone"@)
    &&& opt_view(z.zone_type) == Some("battery"@)
    &&& battery_raw_ok(z.temp_raw)
}

/// The battery sensor made of a kept thermal zone.
pub open spec fn zone_sensor(z: ThermalZoneEntry) -> SensorView {
    SensorView {
        sensor_type: "thermal_zone"@,
        path: z.temp_path@,
        label: Some("battery"@),
        name: "Battery Thermal "@ + z.name@,
    }
}

/// The battery sensors kept from power-supply devices, in order.
pub open spec fn supply_sensors(s: Seq<SupplyEntry>) -> Seq<SensorView>
    decreases s.len(),
{
    if s.len() == 0 {
        seq![]
    } else if supply_kept(s.last()) {
        supply_sensors(s.drop_last()).push(supply_sensor(s.last()))
    } else {
        supply_sensors(s.drop_last())
    }
}

/// The battery sensors kept from thermal zones, in order.
pub open spec fn zone_sensors(s: Seq<ThermalZoneEntry>) -> Seq<SensorView>
    decreases s.len(),
{
    if s.len() == 0 {
        seq![]
    } else if zone_kept(s.last()) {
        zone_sensors(s.drop_last()).push(zone_sensor(s.last()))
    } else {
        zone_sensors(s.drop_last())
    }
}

fn battery_raw_valid(raw: Option<i32>) -> (r: bool)
    ensures
        r == battery_raw_ok(raw),
{
    match raw {
        Some(v) => is_valid_temperature(normalize_battery_temperature(v)),
        None => false,
    }
}

/// The battery temperature sources of the host: power-supply batteries
/// first, then thermal zones of type "battery", each in the order given.
pub fn discover_battery_sensors(supplies: &Vec<SupplyEntry>, zones: &Vec<ThermalZoneEntry>) -> (r:
    Vec<TemperatureSensor>)
    ensures
        sensors_view(r@) == supply_sensors(supplies@) + zone_sensors(zones@),
{
    let mut r: Vec<TemperatureSensor> = Vec::new();
    let mut i: usize = 0;
    assert(sensors_view(r@) =~= seq![]);
    while i < supplies.len()
        invariant
            i <= supplies@.len(),
            sensors_view(r@) == supply_sensors(supplies@.subrange(0, i as int)),
        decreases supplies@.len() - i,
    {
        let e = &supplies[i];
        assert(supplies@.subrange(0, i + 1).drop_last() =~= supplies@.subrange(0, i as int));
        assert(supplies@.subrange(0, i + 1).last() == *e);
        if (starts_with(e.name.as_str(), "BAT") || starts_with(e.name.as_str(), "battery"))
            && battery_raw_valid(e.temp_raw) {
            let mut name = "Battery ".to_owned();
            name.append(e.name.as_str());
            let ghost before = r@;
            r.push(
                TemperatureSensor {
                    sensor_type: "battery".to_owned(),
                    path: e.temp_path.clone(),
                    label: Some(e.name.clone()),
                    name,
                },
            );
            proof {
                lemma_sensors_view_push(before, r@.last());
            }
        }
        i = i + 1;
    }
    assert(supplies@.subrange(0, supplies@.len() as int) =~= supplies@);
    let ghost head = sensors_view(r@);
    let mut j: usize = 0;
    assert(head + zone_sensors(zones@.subrange(0, 0)) =~= head);
    while j < zones.len()
        invariant
            j <= zones@.len(),
            head == supply_sensors(supplies@),
            sensors_view(r@) == head + zone_sensors(zones@.subrange(0, j as int)),
        decreases zones@.len() - j,
    {
        let z = &zones[j];
        assert(zones@.subrange(0, j + 1).drop_last() =~= zones@.subrange(0, j as int));
        assert(zones@.subrange(0, j + 1).last() == *z);
        let typed = match &z.zone_type {
            Some(t) => str_eq(t.as_str(), "battery"),
            None => false,
        };
        if starts_with(z.name.as_str(), "thermal_zone") && typed && battery_raw_valid(z.temp_raw) {
            let mut name = "Battery Thermal ".to_owned();
            name.append(z.name.as_str());
            let ghost before = r@;
            r.push(
                TemperatureSensor {
                    sensor_type: "thermal_zone".to_owned(),
                    path: z.temp_path.clone(),
                    label: Some("battery".to_owned()),
                    name,
                },
            );
            proof {
                lemma_sensors_view_push(before, r@.last());
                assert(sensors_view(r@) =~= head + zone_sensors(zones@.subrange(0, j + 1)));
            }
        }
        j = j + 1;
    }
    assert(zones@.subrange(0, zones@.len() as int) =~= zones@);
    r
}

/// One temperature sample: fresh each poll, never changed.
#[derive(Debug)]
pub struct TemperatureReading {
    /// The reading, in thousandths of a degree Celsius.
    pub raw_millicelsius: i64,
    /// The same value: readings are not averaged.
    pub smoothed_millicelsius: i64,
    /// The sensor it came from.
    pub sensor_info: TemperatureSensor,
    /// When it was taken, in seconds since the Unix epoch.
    pub timestamp: u64,
}

/// What a raw value means in thousandths of a degree: CPU channels report
/// thousandths already, battery sources are normalized.
pub open spec fn reading_milli(raw: i32, battery: bool) -> int {
    if battery {
        normalized_battery_milli(raw as int)
    } else {
        raw as int
    }
}

/// The current value of sensor `i` is present and valid.
pub open spec fn read_ok(readings: Seq<Option<i32>>, i: int, battery: bool) -> bool {
    &&& 0 <= i < readings.len()
    &&& readings[i] is Some
    &&& valid_temp_spec(reading_milli(readings[i]->0, battery))
}

/// The first of sensors `from..n` whose current value is valid.
pub open spec fn first_valid(readings: Seq<Option<i32>>, n: int, from: int, battery: bool) -> Option<
    int,
>
    decreases n - from,
{
    if from >= n {
        None
    } else if read_ok(readings, from, battery) {
        Some(from)
    } else {
        first_valid(readings, n, from + 1, battery)
    }
}

/// `r` is the reading of sensor `i` of `sensors`, whose current raw value
/// is in `readings`.
pub open spec fn reading_of(
    r: TemperatureReading,
    sensors: Seq<TemperatureSensor>,
    readings: Seq<Option<i32>>,
    i: int,
    battery: bool,
    timestamp: u64,
) -> bool {
    &&& r.raw_millicelsius == reading_milli(readings[i]->0, battery)
    &&& r.smoothed_millicelsius == r.raw_millicelsius
    &&& r.sensor_info@ == sensors[i]@
    &&& r.timestamp == timestamp
}

fn reading_copy(r: &TemperatureReading) -> (c: TemperatureReading)
    ensures
        c.raw_millicelsius == r.raw_millicelsius,
        c.smoothed_millicelsius == r.smoothed_millicelsius,
        c.sensor_info@ == r.sensor_info@,
        c.timestamp == r.timestamp,
{
    TemperatureReading {
        raw_millicelsius: r.raw_millicelsius,
        smoothed_millicelsius: r.smoothed_millicelsius,
        sensor_info: r.sensor_info.copy(),
        timestamp: r.timestamp,
    }
}

/// The reading of the first sensor, in order, whose current value is valid.
fn first_valid_reading(
    sensors: &Vec<TemperatureSensor>,
    readings: &Vec<Option<i32>>,
    battery: bool,
    timestamp: u64,
) -> (r: Option<TemperatureReading>)
    ensures
        match first_valid(readings@, sensors@.len() as int, 0, battery) {
            None => r is None,
            Some(i) => r is Some && reading_of(r->0, sensors@, readings@, i, battery, timestamp),
        },
{
    let mut i: usize = 0;
    while i < sensors.len()
        invariant
            i <= sensors@.len(),
            first_valid(readings@, sensors@.len() as int, 0, battery) == first_valid(
                readings@,
                sensors@.len() as int,
                i as int,
                battery,
            ),
        decreases sensors@.len() - i,
    {
        if i < readings.len() {
            if let Some(raw) = readings[i] {
                let milli = if battery {
                    normalize_battery_temperature(raw)
                } else {
                    raw as i64
                };
                if is_valid_temperature(milli) {
                    return Some(
                        TemperatureReading {
                            raw_millicelsius: milli,
                            smoothed_millicelsius: milli,
                            sensor_info: sensors[i].copy(),
                            timestamp,
                        },
                    );
                }
            }
        }
        i = i + 1;
    }
    None
}

/// The temperature sensor catalog, with the last reading each kind gave.
#[derive(Debug)]
pub struct TemperatureMonitor {
    /// CPU sensors, most trusted family first.
    pub cpu_sensors: Vec<TemperatureSensor>,
    /// Battery sensors, in discovery order.
    pub battery_sensors: Vec<TemperatureSensor>,
    /// The last valid CPU reading, kept for display.
    pub last_cpu_temp: Option<TemperatureReading>,
    /// The last valid battery reading, kept for display.
    pub last_battery_temp: Option<TemperatureReading>,
}

impl TemperatureMonitor {
    /// The catalog of what discovery found on the host.
    pub fn new(
        groups: &Vec<HwmonGroup>,
        supplies: &Vec<SupplyEntry>,
        zones: &Vec<ThermalZoneEntry>,
    ) -> (m: TemperatureMonitor)
        ensures
            sensors_view(m.cpu_sensors@) == by_priority(cpu_candidates(groups@)),
            sensors_view(m.battery_sensors@) == supply_sensors(supplies@) + zone_sensors(zones@),
            m.last_cpu_temp is None,
            m.last_battery_temp is None,
    {
        TemperatureMonitor {
            cpu_sensors: discover_cpu_sensors(groups),
            battery_sensors: discover_battery_sensors(supplies, zones),
            last_cpu_temp: None,
            last_battery_temp: None,
        }
    }

    /// The current CPU temperature: the first CPU sensor, in priority order,
    /// whose current value (`readings[i]` for sensor `i`, in thousandths of
    /// a degree; a missing entry is unreadable) is valid. It is also kept
    /// as the last CPU reading.
    pub fn get_cpu_temp(&mut self, readings: &Vec<Option<i32>>, timestamp: u64) -> (r: Option<
        TemperatureReading,
    >)
        ensures
            final(self).cpu_sensors == old(self).cpu_sensors,
            final(self).battery_sensors == old(self).battery_sensors,
            final(self).last_battery_temp == old(self).last_battery_temp,
            match first_valid(readings@, old(self).cpu_sensors@.len() as int, 0, false) {
                None => r is None && final(self).last_cpu_temp == old(self).last_cpu_temp,
                Some(i) => {
                    &&& r is Some
                    &&& reading_of(r->0, old(self).cpu_sensors@, readings@, i, false, timestamp)
                    &&& final(self).last_cpu_temp is Some
                    &&& reading_of(
                        final(self).last_cpu_temp->0,
                        old(self).cpu_sensors@,
                        readings@,
                        i,
                        false,
                        timestamp,
                    )
                },
            },
    {
        let r = first_valid_reading(&self.cpu_sensors, readings, false, timestamp);
        if let Some(reading) = &r {
            self.last_cpu_temp = Some(reading_copy(reading));
        }
        r
    }

    /// The current battery temperature: the first battery sensor whose
    /// current raw value (`readings[i]` for sensor `i`; a missing entry is
    /// unreadable) is valid once normalized. It is also kept as the last
    /// battery reading.
    pub fn get_battery_temp(&mut self, readings: &Vec<Option<i32>>, timestamp: u64) -> (r: Option<
        TemperatureReading,
    >)
        ensures
            final(self).cpu_sensors == old(self).cpu_sensors,
            final(self).battery_sensors == old(self).battery_sensors,
            final(self).last_cpu_temp == old(self).last_cpu_temp,
            match first_valid(readings@, old(self).battery_sensors@.len() as int, 0, true) {
                None => r is None && final(self).last_battery_temp == old(self).last_battery_temp,
                Some(i) => {
                    &&& r is Some
                    &&& reading_of(r->0, old(self).battery_sensors@, readings@, i, true, timestamp)
                    &&& final(self).last_battery_temp is Some
                    &&& reading_of(
                        final(self).last_battery_temp->0,
                        old(self).battery_sensors@,
                        readings@,
                        i,
                        true,
                        timestamp,
                    )
                },
            },
    {
        let r = first_valid_reading(&self.battery_sensors, readings, true, timestamp);
        if let Some(reading) = &r {
            self.last_battery_temp = Some(reading_copy(reading));
        }
        r
    }
}

/// Battery normalization puts each unit tier in its range, and it is
/// idempotent on whole degrees: a result that is a whole number of degrees
/// up to 200, fed back as a raw value, normalizes to itself.
pub proof fn lemma_battery_normalization(raw: int)
    ensures
        raw > 1000 ==> normalized_battery_milli(raw) == raw,
        200 < raw <= 1000 ==> 20_000 < normalized_battery_milli(raw) <= 100_000,
        raw <= 200 ==> normalized_battery_milli(raw) == raw * 1000,
        ({
            let m = normalized_battery_milli(raw);
            m % 1000 == 0 && m / 1000 <= 200 ==> normalized_battery_milli(m / 1000) == m
        }),
{
    let m = normalized_battery_milli(raw);
    if m % 1000 == 0 && m / 1000 <= 200 {
        assert(m / 1000 * 1000 == m);
    }
}

proof fn lemma_with_priority_members(s: Seq<SensorView>, p: nat)
    ensures
        forall|i: int|
            0 <= i < with_priority(s, p).len() ==> sensor_priority(#[trigger] with_priority(s, p)[i])
                == p,
    decreases s.len(),
{
    if s.len() > 0 {
        let prev = with_priority(s.drop_last(), p);
        lemma_with_priority_members(s.drop_last(), p);
        assert forall|i: int| 0 <= i < with_priority(s, p).len() implies sensor_priority(
            #[trigger] with_priority(s, p)[i],
        ) == p by {
            if i < prev.len() {
                assert(with_priority(s, p)[i] == prev[i]);
            }
        }
    }
}

proof fn lemma_with_priority_lens(s: Seq<SensorView>)
    ensures
        with_priority(s, 1).len() + with_priority(s, 2).len() + with_priority(s, 3).len()
            + with_priority(s, 4).len() + with_priority(s, 9).len() == s.len(),
    decreases s.len(),
{
    if s.len() > 0 {
        lemma_with_priority_lens(s.drop_last());
    }
}

/// Ordering by priority keeps every sensor and puts a more trusted family
/// before a less trusted one; sensors of one family keep their discovery
/// order, since each rank is taken from `s` in order.
pub proof fn lemma_by_priority_ordered(s: Seq<SensorView>)
    ensures
        by_priority(s).len() == s.len(),
        forall|i: int, j: int|
            0 <= i < j < by_priority(s).len() ==> sensor_priority(#[trigger] by_priority(s)[i])
                <= sensor_priority(#[trigger] by_priority(s)[j]),
{
    lemma_with_priority_lens(s);
    lemma_with_priority_members(s, 1);
    lemma_with_priority_members(s, 2);
    lemma_with_priority_members(s, 3);
    lemma_with_priority_members(s, 4);
    lemma_with_priority_members(s, 9);
    let a = with_priority(s, 1);
    let b = with_priority(s, 2);
    let c = with_priority(s, 3);
    let d = with_priority(s, 4);
    let e = with_priority(s, 9);
    let r = by_priority(s);
    assert forall|i: int| 0 <= i < r.len() implies ({
        let k = sensor_priority(#[trigger] r[i]);
        &&& (i < a.len() ==> k == 1)
        &&& (a.len() <= i < a.len() + b.len() ==> k == 2)
        &&& (a.len() + b.len() <= i < a.len() + b.len() + c.len() ==> k == 3)
        &&& (a.len() + b.len() + c.len() <= i < a.len() + b.len() + c.len() + d.len() ==> k == 4)
        &&& (a.len() + b.len() + c.len() + d.len() <= i ==> k == 9)
    }) by {
        if i < a.len() {
            assert(r[i] == a[i]);
        } else if i < a.len() + b.len() {
            assert(r[i] == b[i - a.len()]);
        } else if i < a.len() + b.len() + c.len() {
            assert(r[i] == c[i - a.len() - b.len()]);
        } else if i < a.len() + b.len() + c.len() + d.len() {
            assert(r[i] == d[i - a.len() - b.len() - c.len()]);
        } else {
            assert(r[i] == e[i - a.len() - b.len() - c.len() - d.len()]);
        }
    }
}

} // verus!
