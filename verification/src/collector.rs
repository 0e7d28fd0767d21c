use vstd::prelude::*;

use crate::db::{data_energy, DataDB, DatabaseEntry, ProcessDataDB, TotalDataDB, EventDB};
use crate::types::{CPUData, DiskData, GPUData, NetworkData, RamData, SensorData, Event, same_reading};
use crate::units::{sat_add, EnergyUj};

verus! {

/// Possible units to choose as output.
#[derive(Debug, Clone, Copy, PartialEq, Eq)]
pub enum ConsumptionUnit {
    WattHour,
    UJoul,
}

impl Default for ConsumptionUnit {
    fn default() -> (r: Self)
        ensures
            r == ConsumptionUnit::UJoul,
    {
        ConsumptionUnit::UJoul
    }
}

/// Reads the `--mqtt-unit` option: `uj` (microjoules) or `wh` (watt-hours).
pub fn parse_consumption_unit(s: &str) -> (r: Result<ConsumptionUnit, String>)
    ensures
        s@ == "uj"@ ==> r == Ok::<ConsumptionUnit, String>(ConsumptionUnit::UJoul),
        s@ == "wh"@ ==> r == Ok::<ConsumptionUnit, String>(ConsumptionUnit::WattHour),
        s@ != "uj"@ && s@ != "wh"@ ==> (r matches Err(m) && m@ == "Unknown returns unit '"@ + s@
            + "' for MQTT: expected uj or wh."@),
{
    proof {
        reveal_strlit("uj");
        reveal_strlit("wh");
        assert("uj"@[0] != "wh"@[0]);
        assert("uj"@ != "wh"@);
    }
    let given = String::from_str(s);
    if given == String::from_str("uj") {
        Ok(ConsumptionUnit::UJoul)
    } else if given == String::from_str("wh") {
        Ok(ConsumptionUnit::WattHour)
    } else {
        let mut m = String::from_str("Unknown returns unit '");
        m.append(s);
        m.append("' for MQTT: expected uj or wh.");
        Err(m)
    }
}

/// The MQTT identifier used when none is given.
pub const DEFAULT_MQTT_ID: &'static str = "wattseal_collector";

/// The MQTT topic root to publish under: none without a broker address, the given
/// identifier or the default one with an address; an identifier without an address is
/// refused.
pub fn resolve_mqtt_id(mqtt_id: Option<String>, has_addr: bool) -> (r: Result<Option<String>, String>)
    ensures
        !has_addr && mqtt_id is Some ==> (r matches Err(m) && m@
            == "An MQTT broker address must be entered in order to specify the collector's MQTT topic."@),
        !has_addr && mqtt_id is None ==> r == Ok::<Option<String>, String>(None),
        has_addr ==> (r matches Ok(Some(id)) && id@ == (match mqtt_id {
            Some(i) => i@,
            None => DEFAULT_MQTT_ID@,
        })),
{
    if !has_addr {
        if mqtt_id.is_some() {
            Err(
                String::from_str(
                    "An MQTT broker address must be entered in order to specify the collector's MQTT topic.",
                ),
            )
        } else {
            Ok(None)
        }
    } else {
        match mqtt_id {
            Some(id) => Ok(Some(id)),
            None => Ok(Some(String::from_str(DEFAULT_MQTT_ID))),
        }
    }
}

/// The sensors a collector runs.
#[derive(Debug, Clone, Copy, PartialEq, Eq)]
pub enum SensorType {
    CPU,
    GPU,
    RAM,
    Disk,
    Network,
    Processes,
}

impl SensorType {
    /// Returns the database table name for this sensor variant.
    pub fn table_name(&self) -> (t: &'static str)
        ensures
            t@ == (match *self {
                SensorType::CPU => "cpu_data"@,
                SensorType::GPU => "gpu_data"@,
                SensorType::RAM => "ram_data"@,
                SensorType::Disk => "disk_data"@,
                SensorType::Network => "network_data"@,
                SensorType::Processes => "process_data"@,
            }),
    {
        match self {
            SensorType::CPU => CPUData::table_name_static(),
            SensorType::GPU => GPUData::table_name_static(),
            SensorType::RAM => RamData::table_name_static(),
            SensorType::Disk => DiskData::table_name_static(),
            SensorType::Network => NetworkData::table_name_static(),
            SensorType::Processes => ProcessDataDB::table_name_static(),
        }
    }
}

/// GPU vendors, which number their devices separately.
#[derive(Debug, Clone, Copy, PartialEq, Eq, Structural)]
pub enum GPUVendor {
    Nvidia,
    Amd,
    Intel,
    Other,
}

/// How many of `vendors` are `v`.
pub open spec fn vendor_count(vendors: Seq<GPUVendor>, v: GPUVendor) -> nat
    decreases vendors.len(),
{
    if vendors.len() == 0 {
        0
    } else {
        vendor_count(vendors.drop_last(), v) + if vendors.last() == v {
            1nat
        } else {
            0nat
        }
    }
}

/// The index of each GPU among those of its vendor, in detection order (0 for unknown
/// vendors).
pub fn gpu_vendor_indices(vendors: &Vec<GPUVendor>) -> (idx: Vec<u32>)
    requires
        vendors@.len() <= u32::MAX,
    ensures
        idx@.len() == vendors@.len(),
        forall|i: int|
            0 <= i < vendors@.len() ==> #[trigger] idx@[i] == (if vendors@[i] == GPUVendor::Other {
                0
            } else {
                vendor_count(vendors@.take(i), vendors@[i])
            }),
{
    let mut nvidia_index: u32 = 0;
    let mut amd_index: u32 = 0;
    let mut intel_index: u32 = 0;
    let mut idx: Vec<u32> = Vec::new();
    let mut i: usize = 0;
    while i < vendors.len()
        invariant
            i <= vendors@.len(),
            vendors@.len() <= u32::MAX,
            idx@.len() == i,
            nvidia_index == vendor_count(vendors@.take(i as int), GPUVendor::Nvidia),
            amd_index == vendor_count(vendors@.take(i as int), GPUVendor::Amd),
            intel_index == vendor_count(vendors@.take(i as int), GPUVendor::Intel),
            nvidia_index + amd_index + intel_index <= i,
            forall|k: int|
                0 <= k < i ==> #[trigger] idx@[k] == (if vendors@[k] == GPUVendor::Other {
                    0
                } else {
                    vendor_count(vendors@.take(k), vendors@[k])
                }),
        decreases vendors@.len() - i,
    {
        proof {
            assert(vendors@.take(i + 1).drop_last() =~= vendors@.take(i as int));
        }
        let vendor_index = match vendors[i] {
            GPUVendor::Nvidia => {
                let n = nvidia_index;
                nvidia_index = nvidia_index + 1;
                n
            },
            GPUVendor::Amd => {
                let n = amd_index;
                amd_index = amd_index + 1;
                n
            },
            GPUVendor::Intel => {
                let n = intel_index;
                intel_index = intel_index + 1;
                n
            },
            GPUVendor::Other => 0,
        };
        idx.push(vendor_index);
        i = i + 1;
    }
    idx
}

/// Milliseconds to wait so that the first capture falls on a multiple of the capture
/// interval, given the current time since the epoch.
pub fn sync_delay_millis(capture_interval: u64, now_secs: u64, now_subsec_millis: u32) -> (ms: u128)
    requires
        capture_interval > 0,
        now_subsec_millis < 1000,
    ensures
        ms == (capture_interval - now_secs % capture_interval) * 1000 - now_subsec_millis,
{
    let remaining_secs = capture_interval - (now_secs % capture_interval);
    (remaining_secs as u128) * 1000 - (now_subsec_millis as u128)
}

/// The timing state of the collection loop.
pub struct CollectorClock {
    pub last_timestamp: Option<u64>,
}

impl CollectorClock {
    pub fn new() -> (r: Self)
        ensures
            r.last_timestamp is None,
    {
        CollectorClock { last_timestamp: None }
    }

    /// One tick at `timestamp` (seconds since the epoch): the seconds elapsed since the
    /// previous tick, none for the first one, after which sensors are read.
    pub fn tick(&mut self, timestamp: u64) -> (since_last: Option<u64>)
        requires
            old(self).last_timestamp matches Some(l) ==> l <= timestamp,
        ensures
            final(self).last_timestamp == Some(timestamp),
            since_last == (match old(self).last_timestamp {
                Some(l) => Some((timestamp - l) as u64),
                None => None,
            }),
    {
        let since_last = match self.last_timestamp {
            Some(last) => Some(timestamp - last),
            None => None,
        };
        self.last_timestamp = Some(timestamp);
        since_last
    }
}

/// Energy totals of an event's readings.
#[derive(Debug, Clone, Copy, PartialEq, Eq)]
pub struct EnergySummary {
    /// Sum of every reading's energy (saturating).
    pub total_energy: EnergyUj,
    /// Sum of the CPU readings' energy, and how many CPU readings had one.
    pub cpu_energy: EnergyUj,
    pub cpu_count: usize,
    /// Sum of the GPU readings' energy, and how many GPU readings had one.
    pub gpu_energy: EnergyUj,
    pub gpu_count: usize,
}

/// The totals over `data`, read in order.
pub open spec fn energy_summary(data: Seq<DataDB>) -> EnergySummary
    decreases data.len(),
{
    if data.len() == 0 {
        EnergySummary {
            total_energy: EnergyUj(0),
            cpu_energy: EnergyUj(0),
            cpu_count: 0,
            gpu_energy: EnergyUj(0),
            gpu_count: 0,
        }
    } else {
        let s = energy_summary(data.drop_last());
        let d = data.last();
        match data_energy(d) {
            None => s,
            Some(e) => EnergySummary {
                total_energy: EnergyUj(sat_add(s.total_energy.0, e.0)),
                cpu_energy: if d matches DataDB::Sensor(SensorData::CPU(_)) {
                    EnergyUj(sat_add(s.cpu_energy.0, e.0))
                } else {
                    s.cpu_energy
                },
                cpu_count: if d matches DataDB::Sensor(SensorData::CPU(_)) {
                    (s.cpu_count + 1) as usize
                } else {
                    s.cpu_count
                },
                gpu_energy: if d matches DataDB::Sensor(SensorData::GPU(_)) {
                    EnergyUj(sat_add(s.gpu_energy.0, e.0))
                } else {
                    s.gpu_energy
                },
                gpu_count: if d matches DataDB::Sensor(SensorData::GPU(_)) {
                    (s.gpu_count + 1) as usize
                } else {
                    s.gpu_count
                },
            },
        }
    }
}

proof fn lemma_summary_counts(data: Seq<DataDB>)
    ensures
        energy_summary(data).cpu_count + energy_summary(data).gpu_count <= data.len(),
    decreases data.len(),
{
    if data.len() > 0 {
        lemma_summary_counts(data.drop_last());
    }
}

/// The CPU and GPU parts of an event's energy never exceed its total, and the readings
/// counted are among the event's readings.
pub proof fn law_component_energy_within_total(data: Seq<DataDB>)
    ensures
        energy_summary(data).cpu_energy.0 <= energy_summary(data).total_energy.0,
        energy_summary(data).gpu_energy.0 <= energy_summary(data).total_energy.0,
        energy_summary(data).cpu_count + energy_summary(data).gpu_count <= data.len(),
    decreases data.len(),
{
    lemma_summary_counts(data);
    if data.len() > 0 {
        law_component_energy_within_total(data.drop_last());
    }
}

/// Every reading's energy counts towards the event's total, whatever kind of reading it
/// is: appending a reading that carries energy `e` adds `e` to the total (saturating),
/// appending one without energy leaves the total as it was, and two readings carrying
/// the same energy change the total alike.
pub proof fn law_total_counts_every_reading(data: Seq<DataDB>, d: DataDB, d2: DataDB)
    ensures
        data_energy(d) matches Some(e) ==> energy_summary(data.push(d)).total_energy.0 == sat_add(
            energy_summary(data).total_energy.0,
            e.0,
        ),
        data_energy(d) is None ==> energy_summary(data.push(d)).total_energy == energy_summary(data).total_energy,
        data_energy(d) == data_energy(d2) ==> energy_summary(data.push(d)).total_energy == energy_summary(
            data.push(d2),
        ).total_energy,
{
    assert(data.push(d).drop_last() =~= data);
    assert(data.push(d2).drop_last() =~= data);
}

/// Only CPU readings count towards the CPU part and only GPU readings towards the GPU
/// part: appending a CPU (GPU) reading with energy `e` adds `e` to the CPU (GPU) part
/// and counts one more CPU (GPU) reading; any other reading leaves both parts and their
/// counts as they were (for events of fewer than `usize::MAX` readings).
pub proof fn law_component_parts(data: Seq<DataDB>, d: DataDB)
    requires
        data.len() < usize::MAX,
    ensures
        ({
            let before = energy_summary(data);
            let after = energy_summary(data.push(d));
            &&& (d matches DataDB::Sensor(SensorData::CPU(x)) && x.total_energy is Some) ==> after.cpu_energy.0
                == sat_add(before.cpu_energy.0, d->Sensor_0->CPU_0.total_energy->Some_0.0) && after.cpu_count
                == before.cpu_count + 1
                && after.gpu_energy == before.gpu_energy && after.gpu_count == before.gpu_count
            &&& (d matches DataDB::Sensor(SensorData::GPU(x)) && x.total_energy is Some) ==> after.gpu_energy.0
                == sat_add(before.gpu_energy.0, d->Sensor_0->GPU_0.total_energy->Some_0.0) && after.gpu_count
                == before.gpu_count + 1
                && after.cpu_energy == before.cpu_energy && after.cpu_count == before.cpu_count
            &&& !(d is Sensor && (d->Sensor_0 is CPU || d->Sensor_0 is GPU)) ==> after.cpu_energy
                == before.cpu_energy && after.cpu_count == before.cpu_count && after.gpu_energy
                == before.gpu_energy && after.gpu_count == before.gpu_count
        }),
{
    assert(data.push(d).drop_last() =~= data);
    lemma_summary_counts(data);
}

/// The energy a reading carries is its own: a sensor reading's `total_energy`, whatever
/// its kind (none for a process list), a total's `total_energy`, and none for the
/// process entry of an event.
pub proof fn law_reading_energy_is_its_own(
    c: CPUData,
    g: GPUData,
    r: RamData,
    k: DiskData,
    n: NetworkData,
    p: crate::processes::ProcessesData,
    t: TotalDataDB,
    procs: Seq<ProcessDataDB>,
    v: Vec<ProcessDataDB>,
)
    requires
        v@ == procs,
    ensures
        data_energy(DataDB::Sensor(SensorData::CPU(c))) == c.total_energy,
        data_energy(DataDB::Sensor(SensorData::GPU(g))) == g.total_energy,
        data_energy(DataDB::Sensor(SensorData::Ram(r))) == r.total_energy,
        data_energy(DataDB::Sensor(SensorData::Disk(k))) == k.total_energy,
        data_energy(DataDB::Sensor(SensorData::Network(n))) == n.total_energy,
        data_energy(DataDB::Sensor(SensorData::Processes(p))) is None,
        data_energy(DataDB::Total(t)) == Some(t.total_energy),
        data_energy(DataDB::Process(v)) is None,
{
}

/// Sums the energy of the readings: in all, and of the CPU and GPU readings with their
/// number.
pub fn summarize_energy(data: &Vec<DataDB>) -> (s: EnergySummary)
    ensures
        s == energy_summary(data@),
{
    let mut s = EnergySummary {
        total_energy: EnergyUj::from_u64(0),
        cpu_energy: EnergyUj::from_u64(0),
        cpu_count: 0,
        gpu_energy: EnergyUj::from_u64(0),
        gpu_count: 0,
    };
    let mut i: usize = 0;
    while i < data.len()
        invariant
            i <= data@.len(),
            s == energy_summary(data@.take(i as int)),
        decreases data@.len() - i,
    {
        proof {
            assert(data@.take(i + 1).drop_last() =~= data@.take(i as int));
            lemma_summary_counts(data@.take(i as int));
        }
        let d = &data[i];
        match d.total_energy() {
            Some(energy) => {
                s.total_energy.add_assign(energy);
                match d {
                    DataDB::Sensor(SensorData::CPU(_)) => {
                        s.cpu_energy.add_assign(energy);
                        s.cpu_count = s.cpu_count + 1;
                    },
                    DataDB::Sensor(SensorData::GPU(_)) => {
                        s.gpu_energy.add_assign(energy);
                        s.gpu_count = s.gpu_count + 1;
                    },
                    _ => {},
                }
            },
            None => {},
        }
        i = i + 1;
    }
    proof {
        assert(data@.take(data@.len() as int) =~= data@);
    }
    s
}

/// Whether a database reading holds the same values as a sensor reading.
pub open spec fn stores_reading(d: DataDB, s: SensorData) -> bool {
    d matches DataDB::Sensor(x) && same_reading(x, s)
}

/// How many processes an event keeps.
pub const TOP_PROCESSES_PER_EVENT: usize = 10;

/// The processes an event keeps of a ranked list: its first `TOP_PROCESSES_PER_EVENT`.
pub open spec fn top_of(ranked: Seq<ProcessDataDB>) -> Seq<ProcessDataDB> {
    if ranked.len() <= TOP_PROCESSES_PER_EVENT {
        ranked
    } else {
        ranked.take(TOP_PROCESSES_PER_EVENT as int)
    }
}

/// Keeps the first `TOP_PROCESSES_PER_EVENT` processes of a ranked list.
fn keep_top_processes(ranked: Vec<ProcessDataDB>) -> (kept: Vec<ProcessDataDB>)
    ensures
        kept@ == top_of(ranked@),
        kept@.len() <= TOP_PROCESSES_PER_EVENT,
{
    let ghost all = ranked@;
    let mut kept: Vec<ProcessDataDB> = Vec::new();
    for p in it: ranked.into_iter()
        invariant
            it.seq() == all,
            kept@ == all.take(
                if it.index() < TOP_PROCESSES_PER_EVENT {
                    it.index() as int
                } else {
                    TOP_PROCESSES_PER_EVENT as int
                },
            ),
    {
        let ghost i = it.index();
        if kept.len() < TOP_PROCESSES_PER_EVENT {
            kept.push(p);
            proof {
                assert(all.take(i + 1) =~= all.take(i as int).push(all[i as int]));
            }
        }
    }
    proof {
        if all.len() <= TOP_PROCESSES_PER_EVENT {
            assert(all.take(all.len() as int) =~= all);
        }
    }
    kept
}

/// The database event of a sensors event: every reading in order, then the total
/// energy of the readings, then the first `TOP_PROCESSES_PER_EVENT` processes of
/// `top_processes` (ranked by the caller from the summed CPU and GPU energy and usage).
pub fn consumption_event_to_eventdb(sensors_event: &Event, top_processes: Vec<ProcessDataDB>) -> (r: EventDB)
    ensures
        r.spec_time() == sensors_event.spec_time(),
        r.spec_data().len() == sensors_event.spec_data().len() + 2,
        forall|i: int|
            0 <= i < sensors_event.spec_data().len() ==> stores_reading(
                #[trigger] r.spec_data()[i],
                sensors_event.spec_data()[i],
            ),
        ({
            let n = sensors_event.spec_data().len() as int;
            &&& r.spec_data()[n] matches DataDB::Total(t) && t.total_energy == energy_summary(
                r.spec_data().take(n),
            ).total_energy
            &&& r.spec_data()[n + 1] matches DataDB::Process(p) && p@ == top_of(top_processes@)
                && p@.len() <= TOP_PROCESSES_PER_EVENT
        }),
{
    let events = sensors_event.data();
    let mut data: Vec<DataDB> = Vec::new();
    let mut i: usize = 0;
    while i < events.len()
        invariant
            i <= events@.len(),
            data@.len() == i,
            forall|k: int| 0 <= k < i ==> stores_reading(#[trigger] data@[k], events@[k]),
        decreases events@.len() - i,
    {
        data.push(DataDB::Sensor(events[i].clone()));
        i = i + 1;
    }
    let summary = summarize_energy(&data);
    let ghost n = data@.len();
    let ghost pre = data@;
    data.push(DataDB::Total(TotalDataDB { total_energy: summary.total_energy }));
    data.push(DataDB::Process(keep_top_processes(top_processes)));
    proof {
        assert(data@.take(n as int) =~= pre);
    }
    EventDB::new(sensors_event.time(), data)
}

} // verus!
