use vstd::prelude::*;
use std::collections::HashMap;
use std::time::SystemTime;

pub use crate::processes::{ProcessData, ProcessID, ProcessesData};
use crate::units::{Byte, EnergyUj, Percent};

verus! {

#[verifier::external_type_specification]
#[verifier::external_body]
pub struct ExSystemTime(SystemTime);

/// Timestamped collection of sensor readings.
#[derive(Debug)]
pub struct Event {
    time: SystemTime,
    data: Vec<SensorData>,
}

impl Event {
    pub closed spec fn spec_time(&self) -> SystemTime {
        self.time
    }

    pub closed spec fn spec_data(&self) -> Seq<SensorData> {
        self.data@
    }

    /// Creates an event with the given timestamp and sensor data.
    pub fn new(time: SystemTime, data: Vec<SensorData>) -> (r: Self)
        ensures
            r.spec_time() == time,
            r.spec_data() == data@,
    {
        Event { time, data }
    }

    /// Returns the event timestamp.
    pub fn time(&self) -> (t: SystemTime)
        ensures
            t == self.spec_time(),
    {
        self.time
    }

    /// Returns the list of sensor readings.
    pub fn data(&self) -> (d: &Vec<SensorData>)
        ensures
            d@ == self.spec_data(),
    {
        &self.data
    }

    /// Appends a sensor reading to this event.
    pub fn push_data(&mut self, data: SensorData)
        ensures
            final(self).spec_time() == old(self).spec_time(),
            final(self).spec_data() == old(self).spec_data().push(data),
    {
        self.data.push(data);
    }
}

/// Cumulative per-component total consumption values.
#[derive(Debug, Clone)]
pub struct AllTimeData {
    pub components: HashMap<String, EnergyUj>,
}

/// CPU energy and usage readings.
#[derive(Debug, Clone, Copy, PartialEq, Eq)]
pub struct CPUData {
    pub total_energy: Option<EnergyUj>,
    pub pp0_energy: Option<EnergyUj>,
    pub pp1_energy: Option<EnergyUj>,
    pub dram_energy: Option<EnergyUj>,
    pub usage_percent: Option<Percent>,
}

/// GPU energy and usage readings.
#[derive(Debug, Clone, Copy, PartialEq, Eq)]
pub struct GPUData {
    pub total_energy: Option<EnergyUj>,
    pub usage_percent: Option<Percent>,
    pub vram_usage_percent: Option<Percent>,
}

/// RAM energy and usage readings.
#[derive(Debug, Clone, Copy, PartialEq, Eq)]
pub struct RamData {
    pub total_energy: Option<EnergyUj>,
    pub usage_percent: Option<Percent>,
}

/// Disk energy and I/O throughput readings.
#[derive(Debug, Clone, Copy, PartialEq, Eq)]
pub struct DiskData {
    pub total_energy: Option<EnergyUj>,
    pub read_bytes: Byte,
    pub written_bytes: Byte,
}

/// Network energy and throughput readings.
#[derive(Debug, Clone, Copy, PartialEq, Eq)]
pub struct NetworkData {
    pub total_energy: Option<EnergyUj>,
    pub downloaded_bytes: Byte,
    pub uploaded_bytes: Byte,
}

/// Tagged union of all sensor reading types.
#[derive(Debug)]
pub enum SensorData {
    CPU(CPUData),
    GPU(GPUData),
    Ram(RamData),
    Disk(DiskData),
    Network(NetworkData),
    Processes(ProcessesData),
}

/// Whether two readings hold the same values.
pub open spec fn same_reading(a: SensorData, b: SensorData) -> bool {
    match (a, b) {
        (SensorData::CPU(x), SensorData::CPU(y)) => x == y,
        (SensorData::GPU(x), SensorData::GPU(y)) => x == y,
        (SensorData::Ram(x), SensorData::Ram(y)) => x == y,
        (SensorData::Disk(x), SensorData::Disk(y)) => x == y,
        (SensorData::Network(x), SensorData::Network(y)) => x == y,
        (SensorData::Processes(x), SensorData::Processes(y)) => x.0@ == y.0@,
        _ => false,
    }
}

impl Clone for SensorData {
    fn clone(&self) -> (r: Self)
        ensures
            same_reading(r, *self),
    {
        match self {
            SensorData::CPU(d) => SensorData::CPU(*d),
            SensorData::GPU(d) => SensorData::GPU(*d),
            SensorData::Ram(d) => SensorData::Ram(*d),
            SensorData::Disk(d) => SensorData::Disk(*d),
            SensorData::Network(d) => SensorData::Network(*d),
            SensorData::Processes(d) => SensorData::Processes(d.clone()),
        }
    }
}

/// Sensor component category type.
#[derive(Debug, Clone, Copy, PartialEq, Eq)]
pub enum SensorKind {
    CPU,
    GPU,
    Ram,
    Disk,
    Network,
    Processes,
}

/// The label of a sensor kind.
pub open spec fn sensor_kind_label(k: SensorKind) -> Seq<char> {
    match k {
        SensorKind::CPU => "CPU"@,
        SensorKind::GPU => "GPU"@,
        SensorKind::Ram => "Ram"@,
        SensorKind::Disk => "Disk"@,
        SensorKind::Network => "Network"@,
        SensorKind::Processes => "Processes"@,
    }
}

impl SensorKind {
    /// The label of the kind, which is also its displayed text.
    pub fn label(&self) -> (s: &'static str)
        ensures
            s@ == sensor_kind_label(*self),
    {
        match self {
            SensorKind::CPU => "CPU",
            SensorKind::GPU => "GPU",
            SensorKind::Ram => "Ram",
            SensorKind::Disk => "Disk",
            SensorKind::Network => "Network",
            SensorKind::Processes => "Processes",
        }
    }
}

/// The kind of a reading.
pub open spec fn kind_of(d: SensorData) -> SensorKind {
    match d {
        SensorData::CPU(_) => SensorKind::CPU,
        SensorData::GPU(_) => SensorKind::GPU,
        SensorData::Ram(_) => SensorKind::Ram,
        SensorData::Disk(_) => SensorKind::Disk,
        SensorData::Network(_) => SensorKind::Network,
        SensorData::Processes(_) => SensorKind::Processes,
    }
}

/// The total energy of a reading, if it has one.
pub open spec fn energy_of(d: SensorData) -> Option<EnergyUj> {
    match d {
        SensorData::CPU(x) => x.total_energy,
        SensorData::GPU(x) => x.total_energy,
        SensorData::Ram(x) => x.total_energy,
        SensorData::Disk(x) => x.total_energy,
        SensorData::Network(x) => x.total_energy,
        SensorData::Processes(_) => None,
    }
}

/// A reading's kind is the kind its variant names, and its label is that name: a GPU
/// reading is of kind GPU, labelled `GPU`, and likewise for every variant.
pub proof fn law_kind_matches_variant(
    c: CPUData,
    g: GPUData,
    r: RamData,
    k: DiskData,
    n: NetworkData,
    p: ProcessesData,
)
    ensures
        kind_of(SensorData::CPU(c)) == SensorKind::CPU && sensor_kind_label(kind_of(SensorData::CPU(c))) == "CPU"@,
        kind_of(SensorData::GPU(g)) == SensorKind::GPU && sensor_kind_label(kind_of(SensorData::GPU(g))) == "GPU"@,
        kind_of(SensorData::Ram(r)) == SensorKind::Ram && sensor_kind_label(kind_of(SensorData::Ram(r))) == "Ram"@,
        kind_of(SensorData::Disk(k)) == SensorKind::Disk && sensor_kind_label(kind_of(SensorData::Disk(k)))
            == "Disk"@,
        kind_of(SensorData::Network(n)) == SensorKind::Network && sensor_kind_label(
            kind_of(SensorData::Network(n)),
        ) == "Network"@,
        kind_of(SensorData::Processes(p)) == SensorKind::Processes && sensor_kind_label(
            kind_of(SensorData::Processes(p)),
        ) == "Processes"@,
{
}

/// Readings of different kinds of sensor never share a label (so never a topic).
pub proof fn law_kind_labels_are_distinct(a: SensorKind, b: SensorKind)
    ensures
        sensor_kind_label(a) == sensor_kind_label(b) ==> a == b,
{
    reveal_strlit("CPU");
    reveal_strlit("GPU");
    reveal_strlit("Ram");
    reveal_strlit("Disk");
    reveal_strlit("Network");
    reveal_strlit("Processes");
    if sensor_kind_label(a) == sensor_kind_label(b) && a != b {
        let la = sensor_kind_label(a);
        let lb = sensor_kind_label(b);
        assert(la.len() == lb.len());
        assert(la[0] == lb[0]);
        assert(la[1] == lb[1]);
    }
}

impl SensorData {
    /// Returns the sensor kind of this sensor variant.
    pub fn sensor_kind(&self) -> (k: SensorKind)
        ensures
            k == kind_of(*self),
    {
        match self {
            SensorData::CPU(_) => SensorKind::CPU,
            SensorData::GPU(_) => SensorKind::GPU,
            SensorData::Ram(_) => SensorKind::Ram,
            SensorData::Disk(_) => SensorKind::Disk,
            SensorData::Network(_) => SensorKind::Network,
            SensorData::Processes(_) => SensorKind::Processes,
        }
    }

    /// Returns the total energy, if available.
    pub fn total_energy(&self) -> (e: Option<EnergyUj>)
        ensures
            e == energy_of(*self),
    {
        match self {
            SensorData::CPU(data) => data.total_energy,
            SensorData::GPU(data) => data.total_energy,
            SensorData::Ram(data) => data.total_energy,
            SensorData::Disk(data) => data.total_energy,
            SensorData::Network(data) => data.total_energy,
            SensorData::Processes(_) => None,
        }
    }
}

/// Operating system and host information.
#[derive(Debug, Clone)]
pub struct SystemInfo {
    pub os: String,
    pub hostname: String,
    pub is_virtual_machine: bool,
}

/// CPU model, vendor, and core count.
#[derive(Debug, Clone)]
pub struct CpuInfo {
    pub name: String,
    pub vendor: String,
    pub physical_cores: u16,
    pub logical_cores: u16,
    pub base_frequency_mhz: u64,
    pub architecture: String,
}

/// Total physical and swap memory sizes.
#[derive(Debug, Clone, Copy, PartialEq, Eq)]
pub struct MemoryInfo {
    pub total_ram_bytes: u64,
    pub total_swap_bytes: u64,
}

/// Disk name, mount point, and capacity.
#[derive(Debug, Clone)]
pub struct DiskInfo {
    pub name: String,
    pub mount_point: String,
    pub file_system: String,
    pub disk_type: String,
    pub total_bytes: u64,
    pub used_bytes: u64,
}

/// Battery presence, capacity, and cycle count; the capacities are the IEEE-754 bit
/// patterns of their `f32` values in watt-hours.
#[derive(Debug, Clone)]
pub struct BatteryInfo {
    pub present: bool,
    pub name: Option<String>,
    pub design_capacity_wh: Option<u32>,
    pub full_charge_capacity_wh: Option<u32>,
    pub cycle_count: Option<u32>,
}

impl Default for SystemInfo {
    fn default() -> (r: Self)
        ensures
            r.os@ == Seq::<char>::empty(),
            r.hostname@ == Seq::<char>::empty(),
            !r.is_virtual_machine,
    {
        SystemInfo { os: String::new(), hostname: String::new(), is_virtual_machine: false }
    }
}

impl Default for CpuInfo {
    fn default() -> (r: Self)
        ensures
            r.name@ == Seq::<char>::empty(),
            r.vendor@ == Seq::<char>::empty(),
            r.physical_cores == 0,
            r.logical_cores == 0,
            r.base_frequency_mhz == 0,
            r.architecture@ == Seq::<char>::empty(),
    {
        CpuInfo {
            name: String::new(),
            vendor: String::new(),
            physical_cores: 0,
            logical_cores: 0,
            base_frequency_mhz: 0,
            architecture: String::new(),
        }
    }
}

impl Default for MemoryInfo {
    fn default() -> (r: Self)
        ensures
            r.total_ram_bytes == 0,
            r.total_swap_bytes == 0,
    {
        MemoryInfo { total_ram_bytes: 0, total_swap_bytes: 0 }
    }
}

impl Default for BatteryInfo {
    fn default() -> (r: Self)
        ensures
            !r.present,
            r.name is None,
            r.design_capacity_wh is None,
            r.full_charge_capacity_wh is None,
            r.cycle_count is None,
    {
        BatteryInfo {
            present: false,
            name: None,
            design_capacity_wh: None,
            full_charge_capacity_wh: None,
            cycle_count: None,
        }
    }
}

/// Hardware information variant collected at startup.
pub enum InitialInfo {
    System(SystemInfo),
    CPU(CpuInfo),
    Memory(MemoryInfo),
    Gpus(Vec<String>),
    Disks(Vec<DiskInfo>),
    Battery(BatteryInfo),
}

/// Complete hardware inventory of the system.
#[derive(Debug, Clone)]
pub struct HardwareInfo {
    pub system: SystemInfo,
    pub cpu: CpuInfo,
    pub memory: MemoryInfo,
    pub gpus: Vec<String>,
    pub disks: Vec<DiskInfo>,
    pub battery: BatteryInfo,
}

/// The last system information among `infos`.
pub open spec fn last_system(infos: Seq<InitialInfo>) -> Option<SystemInfo>
    decreases infos.len(),
{
    if infos.len() == 0 {
        None
    } else if infos.last() is System {
        Some(infos.last()->System_0)
    } else {
        last_system(infos.drop_last())
    }
}

/// The last CPU information among `infos`.
pub open spec fn last_cpu(infos: Seq<InitialInfo>) -> Option<CpuInfo>
    decreases infos.len(),
{
    if infos.len() == 0 {
        None
    } else if infos.last() is CPU {
        Some(infos.last()->CPU_0)
    } else {
        last_cpu(infos.drop_last())
    }
}

/// The last memory information among `infos`.
pub open spec fn last_memory(infos: Seq<InitialInfo>) -> Option<MemoryInfo>
    decreases infos.len(),
{
    if infos.len() == 0 {
        None
    } else if infos.last() is Memory {
        Some(infos.last()->Memory_0)
    } else {
        last_memory(infos.drop_last())
    }
}

/// The last GPU list among `infos`.
pub open spec fn last_gpus(infos: Seq<InitialInfo>) -> Option<Vec<String>>
    decreases infos.len(),
{
    if infos.len() == 0 {
        None
    } else if infos.last() is Gpus {
        Some(infos.last()->Gpus_0)
    } else {
        last_gpus(infos.drop_last())
    }
}

/// The last disk list among `infos`.
pub open spec fn last_disks(infos: Seq<InitialInfo>) -> Option<Vec<DiskInfo>>
    decreases infos.len(),
{
    if infos.len() == 0 {
        None
    } else if infos.last() is Disks {
        Some(infos.last()->Disks_0)
    } else {
        last_disks(infos.drop_last())
    }
}

/// The last battery information among `infos`.
pub open spec fn last_battery(infos: Seq<InitialInfo>) -> Option<BatteryInfo>
    decreases infos.len(),
{
    if infos.len() == 0 {
        None
    } else if infos.last() is Battery {
        Some(infos.last()->Battery_0)
    } else {
        last_battery(infos.drop_last())
    }
}

impl HardwareInfo {
    /// Assembles the inventory from the pieces collected at startup: for each part the
    /// last piece of its kind, or the part's default when there is none.
    pub fn from(infos: Vec<InitialInfo>) -> (r: Self)
        ensures
            match last_system(infos@) {
                Some(x) => r.system == x,
                None => r.system.os@.len() == 0 && r.system.hostname@.len() == 0
                    && !r.system.is_virtual_machine,
            },
            match last_cpu(infos@) {
                Some(x) => r.cpu == x,
                None => r.cpu.name@.len() == 0 && r.cpu.vendor@.len() == 0 && r.cpu.physical_cores
                    == 0 && r.cpu.logical_cores == 0 && r.cpu.base_frequency_mhz == 0
                    && r.cpu.architecture@.len() == 0,
            },
            match last_memory(infos@) {
                Some(x) => r.memory == x,
                None => r.memory.total_ram_bytes == 0 && r.memory.total_swap_bytes == 0,
            },
            match last_gpus(infos@) {
                Some(x) => r.gpus == x,
                None => r.gpus@.len() == 0,
            },
            match last_disks(infos@) {
                Some(x) => r.disks == x,
                None => r.disks@.len() == 0,
            },
            match last_battery(infos@) {
                Some(x) => r.battery == x,
                None => !r.battery.present && r.battery.name is None
                    && r.battery.design_capacity_wh is None
                    && r.battery.full_charge_capacity_wh is None && r.battery.cycle_count is None,
            },
    {
        let ghost all = infos@;
        let mut system_info: Option<SystemInfo> = None;
        let mut cpu_info: Option<CpuInfo> = None;
        let mut memory_info: Option<MemoryInfo> = None;
        let mut gpu_list: Option<Vec<String>> = None;
        let mut disk_infos: Option<Vec<DiskInfo>> = None;
        let mut battery_info: Option<BatteryInfo> = None;
        for info in it: infos.into_iter()
            invariant
                it.seq() == all,
                system_info == last_system(all.take(it.index() as int)),
                cpu_info == last_cpu(all.take(it.index() as int)),
                memory_info == last_memory(all.take(it.index() as int)),
                gpu_list == last_gpus(all.take(it.index() as int)),
                disk_infos == last_disks(all.take(it.index() as int)),
                battery_info == last_battery(all.take(it.index() as int)),
        {
            proof {
                let i = it.index();
                assert(all.take(i + 1).drop_last() =~= all.take(i as int));
            }
            match info {
                InitialInfo::System(sys) => system_info = Some(sys),
                InitialInfo::CPU(cpu) => cpu_info = Some(cpu),
                InitialInfo::Memory(mem) => memory_info = Some(mem),
                InitialInfo::Gpus(gpus) => gpu_list = Some(gpus),
                InitialInfo::Disks(disks) => disk_infos = Some(disks),
                InitialInfo::Battery(battery) => battery_info = Some(battery),
            }
        }
        proof {
            assert(all.take(all.len() as int) =~= all);
        }
        HardwareInfo {
            system: match system_info {
                Some(x) => x,
                None => SystemInfo::default(),
            },
            cpu: match cpu_info {
                Some(x) => x,
                None => CpuInfo::default(),
            },
            memory: match memory_info {
                Some(x) => x,
                None => MemoryInfo::default(),
            },
            gpus: match gpu_list {
                Some(x) => x,
                None => Vec::new(),
            },
            disks: match disk_infos {
                Some(x) => x,
                None => Vec::new(),
            },
            battery: match battery_info {
                Some(x) => x,
                None => BatteryInfo::default(),
            },
        }
    }
}

/// Metadata pairing entry list with hardware info.
#[derive(Debug, Clone)]
pub struct GeneralData {
    pub sensors: Vec<SensorKind>,
    pub hardware_info: HardwareInfo,
}

} // verus!
