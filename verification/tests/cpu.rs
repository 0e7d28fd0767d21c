use colhidor::cpu::{
    compute_component_delta_ticks, cpu_values_from_registers, energy_expression, energy_registers,
    energy_unit_exponent, has_windows_error_code, install, install_step, is_installed,
    power_unit_register, split_msr, uninstall, uninstall_after_open, uninstall_after_status,
    uninstall_outcome, CPUTicks, CPUValues, CPUVendor, InstallStep, LinuxCPUSensor, WindowsCPUSensor,
    ENERGY_CORE_MSR, ENERGY_PKG_MSR, ENERGY_PWR_UNIT_MSR, INSTALL_ATTEMPTS, MSR_DRAM_ENERGY_STATUS,
    MSR_PKG_ENERGY_STATUS, MSR_PP0_ENERGY_STATUS, MSR_PP1_ENERGY_STATUS, MSR_RAPL_POWER_UNIT,
};
use colhidor::sensors::SensorError;
use colhidor::types::SensorData;
use colhidor::units::EnergyUj;

fn read_error(message: &str) -> SensorError {
    SensorError::ReadError(message.to_string())
}

fn cpu_energy(r: Result<SensorData, SensorError>) -> Option<EnergyUj> {
    match r {
        Ok(SensorData::CPU(d)) => d.total_energy,
        other => panic!("unexpected reading {:?}", other.map(|d| d.sensor_kind().label())),
    }
}

#[test]
fn linux_sensor_setup_errors() {
    let e = LinuxCPUSensor::new(Err("No such file".to_string()), Ok("1".to_string())).err();
    assert_eq!(e, Some(read_error("Failed to read RAPL max range: No such file")));
    let e = LinuxCPUSensor::new(Ok("abc\n".to_string()), Ok("1".to_string())).err();
    assert_eq!(e, Some(read_error("Failed to parse RAPL max value: invalid digit found in string")));
    let e = LinuxCPUSensor::new(Ok("100\n".to_string()), Err("Permission denied".to_string())).err();
    assert_eq!(e, Some(read_error("RAPL not accessible: Permission denied")));
}

#[test]
fn linux_sensor_reports_deltas_and_wraps() {
    let mut sensor = LinuxCPUSensor::new(Ok("1000\n".to_string()), Ok("0".to_string())).ok().unwrap();
    assert_eq!(sensor.read_energy_uj(Ok(" 42 \n".to_string())), Ok(42));
    assert_eq!(cpu_energy(sensor.read_full_data(Ok("900\n".to_string()))), None);
    assert_eq!(cpu_energy(sensor.read_full_data(Ok("950\n".to_string()))), Some(EnergyUj(50)));
    // the counter wrapped after 1000: 50 up to the wrap, then 30
    assert_eq!(cpu_energy(sensor.read_full_data(Ok("30\n".to_string()))), Some(EnergyUj(80)));
    // failed reads leave the last value in place
    assert_eq!(sensor.read_full_data(Err("gone".to_string())).err(), Some(read_error("Failed to read RAPL: gone")));
    assert_eq!(
        sensor.read_full_data(Ok("".to_string())).err(),
        Some(read_error("Failed to parse RAPL value: cannot parse integer from empty string"))
    );
    assert_eq!(cpu_energy(sensor.read_full_data(Ok("40".to_string()))), Some(EnergyUj(10)));
}

#[test]
fn msr_halves() {
    let out: u64 = 0x1234_5678_9abc_def0;
    let (edx, eax) = split_msr(out);
    assert_eq!((edx, eax), (0x1234_5678, 0x9abc_def0));
    assert_eq!(energy_expression(edx, eax), out);
    assert_eq!(energy_unit_exponent(0x000A_0E03), 14);
    assert_eq!(energy_unit_exponent(0xFFFF_FFFF), 31);
}

#[test]
fn vendor_registers() {
    assert_eq!(energy_registers(CPUVendor::Intel), vec![MSR_PKG_ENERGY_STATUS, MSR_PP0_ENERGY_STATUS, MSR_PP1_ENERGY_STATUS, MSR_DRAM_ENERGY_STATUS]);
    assert_eq!(energy_registers(CPUVendor::Amd), vec![ENERGY_PKG_MSR, ENERGY_CORE_MSR]);
    assert!(energy_registers(CPUVendor::Other).is_empty());
    assert_eq!(power_unit_register(CPUVendor::Intel), Some(MSR_RAPL_POWER_UNIT));
    assert_eq!(power_unit_register(CPUVendor::Amd), Some(ENERGY_PWR_UNIT_MSR));
    assert_eq!(power_unit_register(CPUVendor::Other), None);
    assert_eq!(
        cpu_values_from_registers(CPUVendor::Amd, 5, 6, 7, 8),
        Some(CPUValues { pkg: Some(5), pp0: Some(6), pp1: None, dram: None })
    );
    assert_eq!(
        cpu_values_from_registers(CPUVendor::Intel, 5, 6, 7, 8),
        Some(CPUValues { pkg: Some(5), pp0: Some(6), pp1: Some(7), dram: Some(8) })
    );
    assert_eq!(cpu_values_from_registers(CPUVendor::Other, 5, 6, 7, 8), None);
}

#[test]
fn delta_ticks_by_vendor() {
    assert_eq!(compute_component_delta_ticks(CPUVendor::Intel, Some(110), Some(100)), Some(10));
    // Intel counters are 32 bits wide and wrap
    assert_eq!(compute_component_delta_ticks(CPUVendor::Intel, Some(5), Some(0xFFFF_FFFB)), Some(10));
    assert_eq!(compute_component_delta_ticks(CPUVendor::Amd, Some(5), Some(10)), None);
    assert_eq!(compute_component_delta_ticks(CPUVendor::Amd, Some(15), Some(10)), Some(5));
    assert_eq!(compute_component_delta_ticks(CPUVendor::Intel, Some(0), Some(10)), None);
    assert_eq!(compute_component_delta_ticks(CPUVendor::Intel, Some(10), Some(10)), None);
    assert_eq!(compute_component_delta_ticks(CPUVendor::Intel, None, Some(10)), None);
}

#[test]
fn windows_sensor_reads_deltas() {
    let mut sensor = WindowsCPUSensor::new(CPUVendor::Amd, Some(0x000A_1003));
    let first = sensor.read_raw_energy_delta(CPUValues { pkg: Some(100), pp0: Some(50), pp1: None, dram: None });
    // the first measurement is compared with zeros, which give no ticks
    assert_eq!(first.err(), Some(read_error("Failed to calculate energy")));
    let second = sensor.read_raw_energy_delta(CPUValues { pkg: Some(160), pp0: Some(70), pp1: None, dram: None });
    assert_eq!(second.ok(), Some(CPUTicks { pkg: Some(60), pp0: Some(20), pp1: None, dram: None }));
}

#[test]
fn windows_error_codes() {
    assert!(has_windows_error_code("CreateService failed (code 1072)", 1072));
    assert!(!has_windows_error_code("CreateService failed (code 10720)", 1072));
    assert!(!has_windows_error_code("failed", 1072));
}

#[test]
fn install_retries_only_marked_for_delete() {
    let marked = "service marked for deletion (code 1072)".to_string();
    assert!(matches!(install_step(0, Ok(())), InstallStep::Finish(Ok(()))));
    assert!(matches!(install_step(0, Err(marked.clone())), InstallStep::Retry(ref m) if *m == marked));
    assert!(matches!(install_step(1, Err(marked.clone())), InstallStep::Retry(_)));
    match install_step(INSTALL_ATTEMPTS - 1, Err(marked.clone())) {
        InstallStep::Finish(Err(e)) => assert_eq!(e, format!("Failed to install Scaphandre driver: {}", marked)),
        other => panic!("unexpected {:?}", other),
    }
    match install_step(0, Err("access denied (code 5)".to_string())) {
        InstallStep::Finish(Err(e)) => assert_eq!(e, "Failed to install Scaphandre driver: access denied (code 5)"),
        other => panic!("unexpected {:?}", other),
    }
}

#[test]
fn driver_status_and_uninstall_steps() {
    assert_eq!(is_installed(Ok(true)), (true, None));
    assert_eq!(
        is_installed(Err("denied".to_string())),
        (false, Some("Warning: failed to query Scaphandre driver status: denied".to_string()))
    );
    assert_eq!(uninstall_after_status(Ok(false)), Some(Ok(())));
    assert_eq!(uninstall_after_status(Ok(true)), None);
    assert_eq!(
        uninstall_after_status(Err("x".to_string())),
        Some(Err("Failed to query Scaphandre driver status: x".to_string()))
    );
    assert_eq!(uninstall_after_open(Ok(())), None);
    assert_eq!(
        uninstall_after_open(Err("y".to_string())),
        Some(Err("Failed to open Scaphandre driver for uninstall: y".to_string()))
    );
    assert_eq!(uninstall_outcome(Ok(())), Ok(()));
    assert_eq!(uninstall_outcome(Err("pending (code 1072)".to_string())), Ok(()));
    assert_eq!(
        uninstall_outcome(Err("busy".to_string())),
        Err("Failed to uninstall Scaphandre driver: busy".to_string())
    );
}

#[test]
fn driver_reports() {
    assert_eq!(install(Ok(())), (true, "✓ CPU MSR driver installed successfully".to_string()));
    assert_eq!(install(Err("e".to_string())), (false, "✗ Failed to install CPU MSR driver: e".to_string()));
    assert_eq!(uninstall(Ok(())), (true, "✓ CPU MSR driver uninstalled successfully".to_string()));
    assert_eq!(uninstall(Err("e".to_string())), (false, "✗ Failed to uninstall CPU MSR driver: e".to_string()));
}
