use std::time::{Duration, SystemTime};

use colhidor::collector::{
    consumption_event_to_eventdb, gpu_vendor_indices, TOP_PROCESSES_PER_EVENT, parse_consumption_unit, resolve_mqtt_id,
    summarize_energy, sync_delay_millis, CollectorClock, ConsumptionUnit, GPUVendor, SensorType,
};
use colhidor::db::{DataDB, ProcessDataDB};
use colhidor::types::{CPUData, DiskData, Event, GPUData, RamData, SensorData};
use colhidor::units::{Byte, EnergyUj, Percent};

fn cpu(e: Option<u64>) -> SensorData {
    SensorData::CPU(CPUData {
        total_energy: e.map(EnergyUj),
        pp0_energy: None,
        pp1_energy: None,
        dram_energy: None,
        usage_percent: Some(Percent(3.5f64.to_bits())),
    })
}

fn gpu(e: Option<u64>) -> SensorData {
    SensorData::GPU(GPUData { total_energy: e.map(EnergyUj), usage_percent: None, vram_usage_percent: None })
}

fn process(name: &str) -> ProcessDataDB {
    ProcessDataDB {
        app_name: name.to_string(),
        process_exe_path: None,
        process_energy: EnergyUj(7),
        process_cpu_usage: Percent(0),
        process_gpu_usage: None,
        process_mem_usage: Percent(0),
        read_bytes: Byte(0),
        written_bytes: Byte(0),
        subprocess_count: 0,
        icon: None,
    }
}

#[test]
fn consumption_units() {
    assert_eq!(parse_consumption_unit("uj"), Ok(ConsumptionUnit::UJoul));
    assert_eq!(parse_consumption_unit("wh"), Ok(ConsumptionUnit::WattHour));
    assert_eq!(
        parse_consumption_unit("kwh"),
        Err("Unknown returns unit 'kwh' for MQTT: expected uj or wh.".to_string())
    );
    assert_eq!(ConsumptionUnit::default(), ConsumptionUnit::UJoul);
}

#[test]
fn mqtt_ids() {
    assert_eq!(resolve_mqtt_id(None, false), Ok(None));
    assert_eq!(
        resolve_mqtt_id(Some("x".to_string()), false),
        Err("An MQTT broker address must be entered in order to specify the collector's MQTT topic.".to_string())
    );
    assert_eq!(resolve_mqtt_id(None, true), Ok(Some("wattseal_collector".to_string())));
    assert_eq!(resolve_mqtt_id(Some("lab".to_string()), true), Ok(Some("lab".to_string())));
}

#[test]
fn sensor_table_names() {
    assert_eq!(SensorType::CPU.table_name(), "cpu_data");
    assert_eq!(SensorType::GPU.table_name(), "gpu_data");
    assert_eq!(SensorType::RAM.table_name(), "ram_data");
    assert_eq!(SensorType::Disk.table_name(), "disk_data");
    assert_eq!(SensorType::Network.table_name(), "network_data");
    assert_eq!(SensorType::Processes.table_name(), "process_data");
}

#[test]
fn gpus_are_numbered_per_vendor() {
    let vendors = vec![GPUVendor::Nvidia, GPUVendor::Amd, GPUVendor::Nvidia, GPUVendor::Other, GPUVendor::Intel, GPUVendor::Amd];
    assert_eq!(gpu_vendor_indices(&vendors), vec![0, 0, 1, 0, 0, 1]);
    assert!(gpu_vendor_indices(&Vec::new()).is_empty());
}

#[test]
fn first_capture_is_aligned_to_the_interval() {
    assert_eq!(sync_delay_millis(5, 1_700_000_003, 250), 1_750);
    assert_eq!(sync_delay_millis(1, 42, 999), 1);
    assert_eq!(sync_delay_millis(10, 20, 0), 10_000);
}

#[test]
fn clock_ticks_report_elapsed_seconds() {
    let mut clock = CollectorClock::new();
    assert_eq!(clock.tick(100), None);
    assert_eq!(clock.tick(101), Some(1));
    assert_eq!(clock.tick(105), Some(4));
    assert_eq!(clock.last_timestamp, Some(105));
}

#[test]
fn energy_summary_sums_components() {
    let data = vec![
        DataDB::Sensor(cpu(Some(10))),
        DataDB::Sensor(gpu(Some(5))),
        DataDB::Sensor(cpu(None)),
        DataDB::Sensor(SensorData::Ram(RamData { total_energy: Some(EnergyUj(2)), usage_percent: None })),
        DataDB::Sensor(SensorData::Disk(DiskData { total_energy: None, read_bytes: Byte(1), written_bytes: Byte(2) })),
        DataDB::Sensor(gpu(Some(u64::MAX))),
    ];
    let s = summarize_energy(&data);
    assert_eq!(s.cpu_energy, EnergyUj(10));
    assert_eq!(s.cpu_count, 1);
    assert_eq!(s.gpu_energy, EnergyUj(u64::MAX));
    assert_eq!(s.gpu_count, 2);
    assert_eq!(s.total_energy, EnergyUj(u64::MAX));
    assert!(s.cpu_energy <= s.total_energy && s.gpu_energy <= s.total_energy);
}

#[test]
fn event_becomes_database_event_with_total_and_processes() {
    let time = SystemTime::UNIX_EPOCH + Duration::from_secs(1_700_000_000);
    let event = Event::new(time, vec![cpu(Some(10)), gpu(Some(5)), cpu(None)]);
    let db_event = consumption_event_to_eventdb(&event, vec![process("firefox")]);
    assert_eq!(db_event.time(), time);
    let data = db_event.data();
    assert_eq!(data.len(), 5);
    assert!(matches!(data[0], DataDB::Sensor(SensorData::CPU(CPUData { total_energy: Some(EnergyUj(10)), .. }))));
    assert!(matches!(data[1], DataDB::Sensor(SensorData::GPU(_))));
    assert!(matches!(data[2], DataDB::Sensor(SensorData::CPU(CPUData { total_energy: None, .. }))));
    match &data[3] {
        DataDB::Total(t) => assert_eq!(t.total_energy, EnergyUj(15)),
        _ => panic!("expected the total"),
    }
    match &data[4] {
        DataDB::Process(p) => {
            assert_eq!(p.len(), 1);
            assert_eq!(p[0].app_name, "firefox");
        },
        _ => panic!("expected the processes"),
    }
}

#[test]
fn event_keeps_the_ten_first_ranked_processes() {
    let time = SystemTime::UNIX_EPOCH + Duration::from_secs(7);
    let event = Event::new(time, vec![cpu(Some(1))]);
    let ranked: Vec<ProcessDataDB> = (0..12).map(|i| process(&format!("p{}", i))).collect();
    let db_event = consumption_event_to_eventdb(&event, ranked);
    match &db_event.data()[2] {
        DataDB::Process(p) => {
            assert_eq!(p.len(), TOP_PROCESSES_PER_EVENT);
            assert_eq!(p.len(), 10);
            assert_eq!(p[0].app_name, "p0");
            assert_eq!(p[9].app_name, "p9");
        },
        _ => panic!("expected the processes"),
    }
    let few = consumption_event_to_eventdb(&event, vec![process("a"), process("b")]);
    match &few.data()[2] {
        DataDB::Process(p) => assert_eq!(p.len(), 2),
        _ => panic!("expected the processes"),
    }
}
