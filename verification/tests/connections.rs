use std::collections::HashMap;

use colhidor::hash::{digest_to_id, id_from_digest};
use colhidor::net::{
    ip_to_string, ipv4_endpoint, ipv4_from_network, ipv4_to_string, ipv6_endpoint, ipv6_from_bytes, ipv6_to_string,
    port_from_network, IpAddress, SocketAddress,
};
use colhidor::processes::{ProcessID, ProcessKey, ProcessesSensor, RawProcess};
use colhidor::sensors::SensorError;
use colhidor::tcp::{
    create_collector, get_ephemeral_port_range, maybe_client, LinuxTCPConnectionsCollector,
    LinuxTcpEntry, MacosSocket, MacosTCPConnectionsCollector, Platform, TCPConnectionKey,
    TCPConnectionsCollector, TCPConnectionsSensor, TcpTables, WindowsTCPConnectionsCollector, WindowsTcpRow,
};
use colhidor::units::{Byte, Percent};

fn first_eight_le(bytes: &[u8]) -> u64 {
    let digest = blake3::hash(bytes);
    let mut first = [0u8; 8];
    first.copy_from_slice(&digest.as_bytes()[..8]);
    u64::from_le_bytes(first)
}

fn expected_tcp_id(machine: &str, local: (&str, u16), remote: (&str, u16)) -> u64 {
    let mut bytes = Vec::new();
    bytes.extend_from_slice(machine.as_bytes());
    bytes.extend_from_slice(local.0.as_bytes());
    bytes.extend_from_slice(&local.1.to_be_bytes());
    bytes.extend_from_slice(remote.0.as_bytes());
    bytes.extend_from_slice(&remote.1.to_be_bytes());
    first_eight_le(&bytes)
}

fn expected_process_id(machine: &str, name: &str, pid: u32) -> u64 {
    let mut bytes = Vec::new();
    bytes.extend_from_slice(machine.as_bytes());
    bytes.extend_from_slice(name.as_bytes());
    bytes.extend_from_slice(&pid.to_le_bytes());
    first_eight_le(&bytes)
}

fn v4(a: u8, b: u8, c: u8, d: u8, port: u16) -> SocketAddress {
    SocketAddress::new(IpAddress::V4(u32::from_be_bytes([a, b, c, d])), port)
}

#[test]
fn ipv4_text_is_dotted_decimal() {
    assert_eq!(ipv4_to_string(u32::from_be_bytes([192, 168, 1, 20])), "192.168.1.20");
    assert_eq!(ipv4_to_string(0), "0.0.0.0");
    assert_eq!(ipv4_to_string(u32::MAX), "255.255.255.255");
}

#[test]
fn ipv6_text_follows_the_standard_form() {
    let samples: [(u128, &str); 14] = [
        (0, "::"),
        (1, "::1"),
        (0x2001_0db8_0000_0000_0000_0000_0000_0001, "2001:db8::1"),
        (0xfe80_0000_0000_0000_0001_0002_0003_0004, "fe80::1:2:3:4"),
        (0x0001_0000_0000_0001_0000_0000_0000_0001, "1:0:0:1::1"),
        (0x0001_0000_0000_0002_0000_0000_0003_0004, "1::2:0:0:3:4"),
        (0x0001_0002_0003_0004_0005_0006_0007_0008, "1:2:3:4:5:6:7:8"),
        (0x0000_0000_0000_0000_0000_ffff_c000_0201, "::ffff:192.0.2.1"),
        (0x0000_0000_0000_0000_0000_ffff_0000_0000, "::ffff:0.0.0.0"),
        (0x0000_0000_0000_0000_0000_0000_0001_0000, "::1:0"),
        (0x0001_0000_0000_0000_0000_0000_0000_0000, "1::"),
        (0x2001_0db8_0000_0001_0001_0001_0001_0001, "2001:db8:0:1:1:1:1:1"),
        (0x0000_0000_0000_0000_0000_0000_0102_0304, "::102:304"),
        (0xabcd_ef01_0000_0000_0000_0000_0000_0000, "abcd:ef01::"),
    ];
    for (a, text) in samples {
        assert_eq!(ipv6_to_string(a), text);
    }
}

#[test]
fn ip_to_string_dispatches_on_the_family() {
    assert_eq!(ip_to_string(&IpAddress::V4(u32::from_be_bytes([10, 0, 0, 1]))), "10.0.0.1");
    assert_eq!(ip_to_string(&IpAddress::V6(1)), "::1");
}

#[test]
fn tcp_connection_id_hashes_machine_addresses_and_ports() {
    let key = TCPConnectionKey::new("host".to_string(), v4(127, 0, 0, 1, 40000), v4(10, 1, 2, 3, 443));
    let id = key.into_tcp_connection_id();
    assert_eq!(id.0, expected_tcp_id("host", ("127.0.0.1", 40000), ("10.1.2.3", 443)));
    let other = TCPConnectionKey::new("other".to_string(), v4(127, 0, 0, 1, 40000), v4(10, 1, 2, 3, 443));
    assert_ne!(other.into_tcp_connection_id().0, id.0);
}

#[test]
fn process_id_hashes_machine_name_and_pid() {
    let key = ProcessKey::new("host".to_string(), "firefox".to_string(), 4242);
    assert_eq!(key.into_process_id().0, expected_process_id("host", "firefox", 4242));
}

#[test]
fn ephemeral_port_range_from_text() {
    assert_eq!(get_ephemeral_port_range(Some("32768\t60999\n")), (32768, 60999));
    assert_eq!(get_ephemeral_port_range(Some("  1024  2048 ")), (1024, 2048));
    assert_eq!(get_ephemeral_port_range(Some("abc 5000")), (32768, 5000));
    assert_eq!(get_ephemeral_port_range(Some("70000 5000")), (32768, 5000));
    assert_eq!(get_ephemeral_port_range(Some("")), (32768, 60999));
    assert_eq!(get_ephemeral_port_range(None), (32768, 60999));
}

#[test]
fn maybe_client_is_strictly_inside_the_range() {
    assert_eq!(maybe_client((32768, 60999), 40000), Some(true));
    assert_eq!(maybe_client((32768, 60999), 32768), Some(false));
    assert_eq!(maybe_client((32768, 60999), 60999), Some(false));
    assert_eq!(maybe_client((32768, 60999), 443), Some(false));
}

#[test]
fn linux_collector_keeps_established_rows_and_their_owners() {
    let mut collector = LinuxTCPConnectionsCollector::new("host".to_string(), Some("32768 60999"));
    let entries = vec![
        LinuxTcpEntry { established: true, local_address: v4(127, 0, 0, 1, 40000), remote_address: v4(10, 1, 2, 3, 443), inode: 7 },
        LinuxTcpEntry { established: false, local_address: v4(0, 0, 0, 0, 22), remote_address: v4(0, 0, 0, 0, 0), inode: 8 },
        LinuxTcpEntry { established: true, local_address: v4(127, 0, 0, 1, 80), remote_address: v4(10, 1, 2, 4, 50000), inode: 9 },
    ];
    let mut inodes = HashMap::new();
    inodes.insert(7u64, 100u32);
    let data = collector.collect_tcp_connections(&entries, &inodes);
    assert_eq!(data.0.len(), 2);
    let first = expected_tcp_id("host", ("127.0.0.1", 40000), ("10.1.2.3", 443));
    let second = expected_tcp_id("host", ("127.0.0.1", 80), ("10.1.2.4", 50000));
    assert_eq!(data.0[0].connection_id.0, first);
    assert_eq!(data.0[0].maybe_client, Some(true));
    assert_eq!(data.0[1].connection_id.0, second);
    assert_eq!(data.0[1].maybe_client, Some(false));
    assert!(data.0.iter().all(|c| c.local_process_id.is_none() && c.recv_bytes.is_none()));
    let owners = collector.id_to_pid_map();
    assert_eq!(owners.len(), 1);
    assert_eq!(owners.get(&first), Some(&100));

    // a second collection forgets the owners of the first
    let data = collector.collect_tcp_connections(&Vec::new(), &inodes);
    assert!(data.0.is_empty());
    assert!(collector.id_to_pid_map().is_empty());
}

#[test]
fn macos_collector_keeps_established_tcp_sockets() {
    let mut collector = MacosTCPConnectionsCollector::new("mac".to_string(), Some(49152), Some(65535));
    let sockets = vec![
        MacosSocket { pid: 5, is_tcp: true, established: true, local_address: v4(192, 168, 0, 2, 50000), remote_address: v4(1, 1, 1, 1, 443) },
        MacosSocket { pid: 6, is_tcp: false, established: true, local_address: v4(192, 168, 0, 2, 5353), remote_address: v4(224, 0, 0, 251, 5353) },
        MacosSocket { pid: 7, is_tcp: true, established: false, local_address: v4(0, 0, 0, 0, 8080), remote_address: v4(0, 0, 0, 0, 0) },
    ];
    let data = collector.collect_tcp_connections(&sockets);
    assert_eq!(data.0.len(), 1);
    let id = expected_tcp_id("mac", ("192.168.0.2", 50000), ("1.1.1.1", 443));
    assert_eq!(data.0[0].connection_id.0, id);
    assert_eq!(data.0[0].maybe_client, Some(true));
    assert_eq!(collector.id_to_pid_map().get(&id), Some(&5));
}

#[test]
fn macos_port_range_falls_back_to_the_highest_port() {
    let mut collector = MacosTCPConnectionsCollector::new("mac".to_string(), None, None);
    let sockets = vec![MacosSocket {
        pid: 1,
        is_tcp: true,
        established: true,
        local_address: v4(127, 0, 0, 1, 50000),
        remote_address: v4(127, 0, 0, 1, 80),
    }];
    assert_eq!(collector.collect_tcp_connections(&sockets).0[0].maybe_client, Some(false));
}

#[test]
fn windows_collector_keeps_every_row_with_its_bandwidth() {
    let mut collector = WindowsTCPConnectionsCollector::new("win".to_string());
    let rows = vec![
        WindowsTcpRow { local_address: v4(10, 0, 0, 2, 50001), remote_address: v4(8, 8, 8, 8, 443), owning_pid: 900, recv_bytes: Some(Byte(10)), sent_bytes: Some(Byte(20)) },
        WindowsTcpRow { local_address: v4(10, 0, 0, 2, 3389), remote_address: v4(10, 0, 0, 9, 60000), owning_pid: 4, recv_bytes: None, sent_bytes: None },
    ];
    let data = collector.collect_tcp_connections(&rows);
    assert_eq!(data.0.len(), 2);
    assert_eq!(data.0[0].recv_bytes, Some(Byte(10)));
    assert_eq!(data.0[0].sent_bytes, Some(Byte(20)));
    assert_eq!(data.0[0].maybe_client, Some(true));
    assert_eq!(data.0[1].maybe_client, Some(false));
    let owners = collector.id_to_pid_map();
    assert_eq!(owners.len(), 2);
    assert_eq!(owners.get(&expected_tcp_id("win", ("10.0.0.2", 3389), ("10.0.0.9", 60000))), Some(&4));
}

#[test]
fn sensor_has_no_collector_on_other_platforms() {
    let sensor = TCPConnectionsSensor::new("host".to_string(), Platform::Other);
    assert!(matches!(sensor.collector, TCPConnectionsCollector::EmptyCollector));
    assert!(sensor.id_to_pid_map().is_none());
    let sensor = TCPConnectionsSensor::new("host".to_string(), Platform::Windows);
    assert_eq!(sensor.id_to_pid_map().map(|m| m.len()), Some(0));
    assert!(matches!(
        create_collector("host".to_string(), Platform::Linux { port_range_text: None }),
        TCPConnectionsCollector::LinuxCollector(_)
    ));
    assert!(matches!(
        create_collector("host".to_string(), Platform::MacOS { port_first: None, port_last: None }),
        TCPConnectionsCollector::MacOSCollector(_)
    ));
}

fn raw(pid: u32, name: Option<&str>, parent: Option<u32>) -> RawProcess {
    RawProcess {
        pid,
        name: name.map(|n| n.to_string()),
        parent_pid: parent,
        exe_path: Some(format!("/bin/{}", pid)),
        cpu_usage: Percent(12.5f64.to_bits()),
        ram_usage: Percent(1.0f64.to_bits()),
        read_bytes: 100,
        written_bytes: 200,
    }
}

#[test]
fn processes_are_identified_and_linked_to_their_parents() {
    let mut sensor = ProcessesSensor::new("host".to_string());
    let procs = vec![raw(2, Some("child"), Some(1)), raw(1, Some("init"), None), raw(3, None, Some(99))];
    let data = sensor.read_full_data(&procs);
    assert_eq!(data.0.len(), 3);
    let init_id = ProcessID(expected_process_id("host", "init", 1));
    assert_eq!(data.0[0].process_id, ProcessID(expected_process_id("host", "child", 2)));
    assert_eq!(data.0[0].name, "child");
    assert_eq!(data.0[0].parent, Some(init_id));
    assert_eq!(data.0[0].exe_path.as_deref(), Some("/bin/2"));
    assert_eq!(data.0[0].cpu_usage, Some(Percent(12.5f64.to_bits())));
    assert_eq!(data.0[0].gpu_usage, None);
    assert_eq!(data.0[0].read_bytes, Some(100));
    assert_eq!(data.0[0].written_bytes, Some(200));
    assert_eq!(data.0[1].parent, None);
    assert_eq!(data.0[2].name, "__unknown");
    assert_eq!(data.0[2].process_id, ProcessID(expected_process_id("host", "__unknown", 3)));
    assert_eq!(data.0[2].parent, None);
    let ids = sensor.pid_to_id();
    assert_eq!(ids.len(), 3);
    assert_eq!(ids.get(&1), Some(&init_id));
}

#[test]
fn sensor_reads_the_tables_of_its_platform() {
    let mut sensor = TCPConnectionsSensor::new("host".to_string(), Platform::Linux { port_range_text: Some("32768 60999".to_string()) });
    let mut inode_to_pid = HashMap::new();
    inode_to_pid.insert(7u64, 100u32);
    let entries = vec![LinuxTcpEntry { established: true, local_address: v4(127, 0, 0, 1, 40000), remote_address: v4(10, 1, 2, 3, 443), inode: 7 }];
    let data = sensor.read_full_data(Ok(TcpTables::Linux { entries, inode_to_pid })).ok().unwrap();
    let id = expected_tcp_id("host", ("127.0.0.1", 40000), ("10.1.2.3", 443));
    assert_eq!(data.0.len(), 1);
    assert_eq!(data.0[0].connection_id.0, id);
    assert_eq!(sensor.id_to_pid_map().unwrap().get(&id), Some(&100));

    // tables of another platform are not supported, and change nothing
    let other = sensor.read_full_data(Ok(TcpTables::Windows { rows: Vec::new() }));
    assert_eq!(other.err(), Some(SensorError::NotSupported));
    assert_eq!(sensor.id_to_pid_map().unwrap().len(), 1);

    // a failed read forgets the owners
    let failed = sensor.read_full_data(Err("permission denied".to_string()));
    assert_eq!(failed.err(), Some(SensorError::ReadError("permission denied".to_string())));
    assert!(sensor.id_to_pid_map().unwrap().is_empty());

    let mut none = TCPConnectionsSensor::new("host".to_string(), Platform::Other);
    assert_eq!(none.read_full_data(Err("x".to_string())).err(), Some(SensorError::NotSupported));
    assert_eq!(none.read_full_data(Ok(TcpTables::MacOS { sockets: Vec::new() })).err(), Some(SensorError::NotSupported));
}

#[test]
fn network_byte_order_fields() {
    // the fields hold network byte order as a little-endian machine stores it
    let port_field = u32::from(u16::from_le_bytes(443u16.to_be_bytes()));
    assert_eq!(port_from_network(port_field), 443);
    assert_eq!(port_from_network(0xABCD_5000), 0x0050);
    let addr_field = u32::from_le_bytes([192, 168, 1, 20]);
    assert_eq!(ipv4_from_network(addr_field), u32::from_be_bytes([192, 168, 1, 20]));
    assert_eq!(ipv4_from_network(0x0102_0304), 0x0403_0201);
    let bytes: [u8; 16] = [0x20, 0x01, 0x0d, 0xb8, 0, 0, 0, 0, 0, 0, 0, 0, 0, 0, 0, 1];
    assert_eq!(ipv6_from_bytes(bytes), 0x2001_0db8_0000_0000_0000_0000_0000_0001);
    assert_eq!(ipv6_from_bytes([0xff; 16]), u128::MAX);
    let e = ipv4_endpoint(addr_field, port_field);
    assert_eq!(e, v4(192, 168, 1, 20, 443));
    let e6 = ipv6_endpoint(bytes, port_field);
    assert_eq!(ip_to_string(&e6.ip), "2001:db8::1");
    assert_eq!(e6.port, 443);
}

#[test]
fn identifiers_are_the_first_eight_digest_bytes() {
    assert_eq!(id_from_digest(&vec![1, 0, 0, 0, 0, 0, 0, 0, 9]), 1);
    assert_eq!(id_from_digest(&vec![0x08, 0x07, 0x06, 0x05, 0x04, 0x03, 0x02, 0x01]), 0x0102_0304_0506_0708);
    let digest = blake3::hash(b"abc").as_bytes().to_vec();
    assert_eq!(digest_to_id(b"abc"), id_from_digest(&digest));
    assert_eq!(digest_to_id(b"abc"), first_eight_le(b"abc"));
    assert_ne!(digest_to_id(b"abc"), digest_to_id(b"abd"));
}

#[test]
fn identifiers_stay_the_same_across_readings() {
    let mut sensor = ProcessesSensor::new("host".to_string());
    let first = sensor.read_full_data(&vec![raw(7, Some("editor"), None)]);
    let second = sensor.read_full_data(&vec![raw(3, Some("shell"), None), raw(7, Some("editor"), Some(3))]);
    assert_eq!(first.0[0].process_id, second.0[1].process_id);

    let entry = LinuxTcpEntry { established: true, local_address: v4(127, 0, 0, 1, 40000), remote_address: v4(10, 1, 2, 3, 443), inode: 1 };
    let mut a = LinuxTCPConnectionsCollector::new("host".to_string(), Some("32768 60999"));
    let mut b = LinuxTCPConnectionsCollector::new("host".to_string(), Some("1024 2048"));
    let no_owners = HashMap::new();
    let ra = a.collect_tcp_connections(&vec![entry], &no_owners);
    let rb = b.collect_tcp_connections(&vec![entry], &no_owners);
    assert_eq!(ra.0[0].connection_id, rb.0[0].connection_id);
    assert_ne!(ra.0[0].maybe_client, rb.0[0].maybe_client);
}
