use vmonitor::telemetry::{
    count_sockets, total_capacity, DiskInfo, DiskSample, IdentitySample, InterfaceTraffic,
    NetworkInfo, SocketProtocol, VMInfo,
};

fn disk(total: u64, available: u64, read: u64, written: u64) -> DiskSample {
    DiskSample { total_space: total, available_space: available, read_bytes: read, written_bytes: written }
}

#[test]
fn counts_tcp_and_udp_sockets() {
    let s = vec![SocketProtocol::Tcp, SocketProtocol::Udp, SocketProtocol::Tcp];
    assert_eq!(count_sockets(&s), (2, 1));
    assert_eq!(count_sockets(&vec![]), (0, 0));
}

#[test]
fn network_totals() {
    let ifaces = vec![
        InterfaceTraffic { received: 100, transmitted: 10 },
        InterfaceTraffic { received: 50, transmitted: 5 },
    ];
    let n = NetworkInfo::from_samples(&ifaces, &vec![SocketProtocol::Udp]);
    assert_eq!(
        n,
        NetworkInfo { download_traffic: 150, upload_traffic: 15, tcp_count: 0, udp_count: 1 }
    );
    let huge = vec![
        InterfaceTraffic { received: u64::MAX, transmitted: 1 },
        InterfaceTraffic { received: 1, transmitted: 1 },
    ];
    assert_eq!(NetworkInfo::from_samples(&huge, &vec![]).download_traffic, u64::MAX);
}

#[test]
fn disk_totals() {
    let disks = vec![disk(100, 40, 7, 8), disk(50, 50, 1, 2), disk(10, 20, 0, 0)];
    assert_eq!(
        DiskInfo::from_disks(&disks),
        DiskInfo { space_used: 60, space_total: 160, read: 8, write: 10 }
    );
    assert_eq!(total_capacity(&disks), 160);
    assert_eq!(DiskInfo::from_disks(&vec![]), DiskInfo { space_used: 0, space_total: 0, read: 0, write: 0 });
}

fn sample() -> IdentitySample {
    IdentitySample {
        os: "Ubuntu".to_string(),
        os_version: "24.04".to_string(),
        arch: "x86_64".to_string(),
        platform: "linux".to_string(),
        edition: None,
        kernel: Some("6.8.0".to_string()),
        hostname: None,
        cpus: vec![],
        memory: 1024,
        disks: vec![disk(100, 0, 0, 0), disk(28, 0, 0, 0)],
        uptime: 77,
        version: "0.1.0".to_string(),
    }
}

#[test]
fn identity_fallbacks() {
    let info = VMInfo::from_sample(sample());
    assert_eq!(info.platform_version, "Unknown");
    assert_eq!(info.hostname, "Unknown");
    assert_eq!(info.kernel, "6.8.0");
    assert_eq!(info.cpu, vec!["Unknown".to_string()]);
    assert_eq!(info.disk, 128);
    assert_eq!(info.memory, 1024);
    assert_eq!(info.uptime, 77);
    assert_eq!(info.os, "Ubuntu");
}

#[test]
fn identity_keeps_reported_values() {
    let mut s = sample();
    s.cpus = vec!["cpu0".to_string(), "cpu1".to_string()];
    s.edition = Some("LTS".to_string());
    s.hostname = Some("host".to_string());
    let info = VMInfo::from_sample(s);
    assert_eq!(info.cpu, vec!["cpu0".to_string(), "cpu1".to_string()]);
    assert_eq!(info.platform_version, "LTS");
    assert_eq!(info.hostname, "host");
}
