use colhidor::db::{
    CPUDataDB, DataDB, DataKindDB, DatabaseEntry, DiskDataDB, GPUDataDB, GeneralDataDB, MetricKindDB,
    MetricValue, NetworkDataDB, ProcessDataDB, RamDataDB, SensorDataDB, TotalDataDB,
};
use colhidor::types::{GeneralData, HardwareInfo, SensorData, SensorKind, CPUData, DiskData};
use colhidor::units::{Byte, EnergyUj, Percent};

fn percent_value(p: Option<Percent>) -> Option<f64> {
    p.map(|b| f64::from_bits(b.0))
}

fn energy_value(e: Option<EnergyUj>) -> Option<f64> {
    e.map(|x| x.as_u64() as f64)
}

#[test]
fn zero_defaults_are_zero_filled() {
    // CPU
    match CPUDataDB::zero() {
        DataDB::Sensor(SensorDataDB::CPU(cpu)) => {
            assert_eq!(energy_value(cpu.total_energy), Some(0.0));
            assert_eq!(energy_value(cpu.pp0_energy), Some(0.0));
            assert_eq!(energy_value(cpu.pp1_energy), Some(0.0));
            assert_eq!(energy_value(cpu.dram_energy), Some(0.0));
            assert_eq!(percent_value(cpu.usage_percent), Some(0.0));
        }
        _ => panic!("CPUData::zero() returned wrong SensorData variant"),
    }

    // GPU
    match GPUDataDB::zero() {
        DataDB::Sensor(SensorDataDB::GPU(gpu)) => {
            assert_eq!(energy_value(gpu.total_energy), Some(0.0));
            assert_eq!(percent_value(gpu.usage_percent), Some(0.0));
            assert_eq!(percent_value(gpu.vram_usage_percent), Some(0.0));
        }
        _ => panic!("GPUData::zero() returned wrong SensorData variant"),
    }

    // RAM
    match RamDataDB::zero() {
        DataDB::Sensor(SensorDataDB::Ram(ram)) => {
            assert_eq!(energy_value(ram.total_energy), Some(0.0));
            assert_eq!(percent_value(ram.usage_percent), Some(0.0));
        }
        _ => panic!("RamData::zero() returned wrong SensorData variant"),
    }

    // Disk
    match DiskDataDB::zero() {
        DataDB::Sensor(SensorDataDB::Disk(disk)) => {
            assert_eq!(energy_value(disk.total_energy), Some(0.0));
            assert_eq!(disk.read_bytes.as_u64() as f64, 0.0);
            assert_eq!(disk.written_bytes.as_u64() as f64, 0.0);
        }
        _ => panic!("DiskData::zero() returned wrong SensorData variant"),
    }

    // Network
    match NetworkDataDB::zero() {
        DataDB::Sensor(SensorDataDB::Network(net)) => {
            assert_eq!(energy_value(net.total_energy), Some(0.0));
            assert_eq!(net.downloaded_bytes.as_u64() as f64, 0.0);
            assert_eq!(net.uploaded_bytes.as_u64() as f64, 0.0);
        }
        _ => panic!("NetworkData::zero() returned wrong SensorData variant"),
    }

    // Total
    match TotalDataDB::zero() {
        DataDB::Total(total) => {
            assert_eq!(total.total_energy.as_u64() as f64, 0.0);
        }
        _ => panic!("TotalData::zero() returned wrong SensorData variant"),
    }

    // Process
    match ProcessDataDB::zero() {
        DataDB::Process(vec) => {
            assert!(vec.is_empty());
        }
        _ => panic!("ProcessData::zero() returned wrong SensorData variant"),
    }
}

#[test]
fn insert_sql_numbers_one_parameter_per_column() {
    assert_eq!(
        RamDataDB::insert_sql(),
        "INSERT INTO ram_data (timestamp_id, total_consumption, usage_percent) VALUES (?1, ?2, ?3)"
    );
    assert_eq!(
        TotalDataDB::insert_sql(),
        "INSERT INTO total_data (timestamp_id, total_consumption, period_type) VALUES (?1, ?2, ?3)"
    );
    let process_sql = ProcessDataDB::insert_sql();
    assert!(process_sql.ends_with("?8, ?9, ?10)"));
}

#[test]
fn insert_sql_of_a_table_without_columns() {
    assert_eq!(
        colhidor::types::AllTimeData::insert_sql(),
        "INSERT INTO all_time_data (timestamp_id, ) VALUES (?1)"
    );
}

#[test]
fn create_table_sql_adds_identifier_timestamp_and_index() {
    assert_eq!(
        RamDataDB::create_table_sql(),
        "CREATE TABLE IF NOT EXISTS ram_data (id INTEGER PRIMARY KEY, timestamp_id INTEGER NOT NULL REFERENCES timestamp(id) ON DELETE CASCADE, total_consumption REAL, usage_percent REAL);CREATE INDEX IF NOT EXISTS idx_ram_data_timestamp_id ON ram_data(timestamp_id)"
    );
}

#[test]
fn avg_columns_sql_averages_every_column() {
    assert_eq!(
        GPUDataDB::avg_columns_sql("g."),
        "AVG(g.total_consumption) AS total_consumption, AVG(g.usage_percent) AS usage_percent, AVG(g.vram_usage_percent) AS vram_usage_percent"
    );
    assert_eq!(colhidor::types::AllTimeData::avg_columns_sql("x."), "");
}

#[test]
fn table_names_of_every_kind() {
    assert_eq!(CPUDataDB::table_name_static(), "cpu_data");
    assert_eq!(CPUDataDB::generic_name(), "CPU");
    assert_eq!(RamDataDB::generic_name(), "RAM");
    assert_eq!(ProcessDataDB::generic_name(), "Processes");
    assert_eq!(DataKindDB::Network.table_name(), "network_data");
    assert_eq!(DataKindDB::Total.table_name(), "total_data");
    assert_eq!(DataKindDB::from(SensorKind::Processes).table_name(), "process_data");
    assert_eq!(DataDB::Total(TotalDataDB::default()).table_name(), "total_data");
    assert_eq!(DataDB::Process(Vec::new()).table_name(), "process_data");
    assert_eq!(DataDB::Sensor(SensorData::Disk(DiskData::default())).table_name(), "disk_data");
}

#[test]
fn metric_kind_labels_and_units() {
    assert_eq!(MetricKindDB::default(), MetricKindDB::Power);
    assert_eq!(MetricKindDB::Usage.label(), "Usage");
    assert_eq!(MetricKindDB::Speed.unit_label(), "MB/s");
    assert_eq!(MetricKindDB::Power.legend("CPU"), "CPU Power");
    assert_eq!(MetricKindDB::Power.effective_unit(true), "Wh");
    assert_eq!(MetricKindDB::Power.effective_unit(false), "W");
    assert_eq!(MetricKindDB::Usage.effective_unit(true), "%");
}

#[test]
fn total_energy_and_secondary_values() {
    let cpu = CPUData {
        total_energy: Some(EnergyUj::from_u64(42)),
        pp0_energy: None,
        pp1_energy: None,
        dram_energy: None,
        usage_percent: Some(Percent(12.5f64.to_bits())),
    };
    let d = DataDB::Sensor(SensorData::CPU(cpu));
    assert_eq!(d.total_energy(), Some(EnergyUj::from_u64(42)));
    assert_eq!(d.secondary_metric(), Some(MetricKindDB::Usage));
    let sv = d.secondary_values().unwrap();
    assert_eq!(sv.metric_type(), MetricKindDB::Usage);
    assert_eq!(sv.values().len(), 1);
    assert_eq!(sv.values()[0].label, "Usage");
    assert_eq!(sv.values()[0].value, Some(MetricValue::Percent(Percent(12.5f64.to_bits()))));

    let disk = DataDB::Sensor(SensorData::Disk(DiskData {
        total_energy: None,
        read_bytes: Byte::from(3_000_000),
        written_bytes: Byte::from(5),
    }));
    assert_eq!(disk.total_energy(), None);
    let sv = disk.secondary_values().unwrap();
    assert_eq!(sv.metric_type(), MetricKindDB::Speed);
    assert_eq!(sv.values()[0].label, "Read");
    assert_eq!(sv.values()[0].value, Some(MetricValue::Bytes(Byte::from(3_000_000))));
    assert_eq!(sv.values()[1].label, "Write");

    let total = DataDB::Total(TotalDataDB { total_energy: EnergyUj::from_u64(7) });
    assert_eq!(total.total_energy(), Some(EnergyUj::from_u64(7)));
    assert!(total.secondary_values().is_none());
    assert!(total.secondary_metric().is_none());
}

#[test]
fn general_data_lists_sensor_tables_then_process_and_total() {
    let data = GeneralData {
        sensors: vec![SensorKind::CPU, SensorKind::Ram, SensorKind::Network],
        hardware_info: HardwareInfo::from(Vec::new()),
    };
    let g = GeneralDataDB::from(data, "{}".to_string());
    assert_eq!(g.tables, "cpu_data,ram_data,network_data,process_data,total_data");
    assert_eq!(g.hardware_info_serialized, "{}");
}

#[test]
fn total_text_shows_microjoules() {
    let t = TotalDataDB { total_energy: EnergyUj::from_u64(1234) };
    assert_eq!(t.to_text(), "Total Energy: 1234 µJ\n");
}
