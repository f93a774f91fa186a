use infoband::metrics::{
    cpu_percent_between, memory_percent_of, network_rate, total_network_bytes, CounterReading,
    CpuTimes, DiskBytes, InterfaceRow, MemoryStatus, Metrics, Sample,
};

fn empty_sample(time_us: u64) -> Sample {
    Sample { time_us, cpu: None, memory: None, disk: None, network: None }
}

#[test]
fn cpu_share_between_readings() {
    let prev = CpuTimes { idle: 10, kernel_plus_idle: 20, user: 20 };
    let cur = CpuTimes { idle: 20, kernel_plus_idle: 40, user: 40 };
    // 40 units elapsed, 10 of them idle: 75% busy.
    assert_eq!(cpu_percent_between(prev, cur), 75_000);
}

#[test]
fn cpu_share_without_elapsed_time_is_zero() {
    let t = CpuTimes { idle: 5, kernel_plus_idle: 9, user: 3 };
    assert_eq!(cpu_percent_between(t, t), 0);
}

#[test]
fn cpu_share_across_counter_wrap() {
    let prev = CpuTimes { idle: u64::MAX - 4, kernel_plus_idle: u64::MAX - 9, user: 0 };
    let cur = CpuTimes { idle: 5, kernel_plus_idle: 10, user: 0 };
    // idle grew by 10, total by 20.
    assert_eq!(cpu_percent_between(prev, cur), 50_000);
}

#[test]
fn memory_share_in_use() {
    assert_eq!(memory_percent_of(MemoryStatus { total_phys: 800, avail_phys: 200 }), 75_000);
    assert_eq!(memory_percent_of(MemoryStatus { total_phys: 0, avail_phys: 0 }), 0);
    assert_eq!(memory_percent_of(MemoryStatus { total_phys: 3, avail_phys: 2 }), 33_333);
}

#[test]
fn network_bytes_count_each_adapter_once() {
    let rows = vec![
        InterfaceRow { phys_addr: 7, in_octets: 100, out_octets: 50 },
        InterfaceRow { phys_addr: 3, in_octets: 1, out_octets: 2 },
        InterfaceRow { phys_addr: 7, in_octets: 100, out_octets: 50 },
        InterfaceRow { phys_addr: 7, in_octets: 999, out_octets: 999 },
    ];
    assert_eq!(total_network_bytes(&rows), 153);
    assert_eq!(total_network_bytes(&Vec::new()), 0);
}

#[test]
fn network_rate_first_reading_is_zero() {
    let cur = CounterReading { count: 123_456_789, time_us: 5_000_000 };
    assert_eq!(network_rate(None, cur), 0);
}

#[test]
fn network_rate_formula() {
    // 125000 bytes in one second: 1 megabit per second.
    let prev = CounterReading { count: 1_000, time_us: 2_000_000 };
    let cur = CounterReading { count: 126_000, time_us: 3_000_000 };
    assert_eq!(network_rate(Some(prev), cur), 1_000);
    // Same delta over half a second: twice the rate.
    let cur = CounterReading { count: 126_000, time_us: 2_500_000 };
    assert_eq!(network_rate(Some(prev), cur), 2_000);
}

#[test]
fn network_rate_across_counter_wrap() {
    let prev = CounterReading { count: u64::MAX - 124_999, time_us: 0 };
    let cur = CounterReading { count: 0, time_us: 1_000_000 };
    assert_eq!(network_rate(Some(prev), cur), 1_000);
}

#[test]
fn network_rate_without_elapsed_time_is_zero() {
    let prev = CounterReading { count: 0, time_us: 7 };
    let cur = CounterReading { count: 1_000_000, time_us: 7 };
    assert_eq!(network_rate(Some(prev), cur), 0);
}

#[test]
fn first_fetch_derives_zero() {
    let mut m = Metrics::new();
    m.fetch(Sample {
        time_us: 1_000_000,
        cpu: Some(CpuTimes { idle: 1 << 40, kernel_plus_idle: 1 << 41, user: 1 << 39 }),
        memory: None,
        disk: Some(DiskBytes { read: 1 << 50, written: 12345 }),
        network: Some(vec![InterfaceRow { phys_addr: 1, in_octets: 4_000_000_000, out_octets: 7 }]),
    });
    assert_eq!(m.avg_cpu_percent(), 0);
    assert_eq!(m.avg_disk_mbyte(), 0);
    assert_eq!(m.avg_network_mbit(), 0);
}

#[test]
fn second_fetch_derives_rates() {
    let mut m = Metrics::new();
    m.fetch(Sample {
        time_us: 1_000_000,
        cpu: Some(CpuTimes { idle: 0, kernel_plus_idle: 0, user: 0 }),
        memory: Some(MemoryStatus { total_phys: 100, avail_phys: 50 }),
        disk: Some(DiskBytes { read: 0, written: 0 }),
        network: Some(vec![InterfaceRow { phys_addr: 1, in_octets: 0, out_octets: 0 }]),
    });
    assert_eq!(m.avg_memory_percent(), 50_000);
    m.fetch(Sample {
        time_us: 2_000_000,
        cpu: Some(CpuTimes { idle: 50, kernel_plus_idle: 100, user: 100 }),
        memory: Some(MemoryStatus { total_phys: 100, avail_phys: 50 }),
        disk: Some(DiskBytes { read: 1_048_576, written: 1_048_576 }),
        network: Some(vec![InterfaceRow { phys_addr: 1, in_octets: 125_000, out_octets: 125_000 }]),
    });
    // The newest sample enters with full weight; the older zero sample then
    // pulls it toward zero with weight 0.631, leaving (1 - 0.631) of it.
    let smoothed = |v: u64| (v * (65536 - 41353)) / 65536;
    assert_eq!(m.avg_cpu_percent(), smoothed(75_000));
    assert_eq!(m.avg_memory_percent(), 50_000);
    assert_eq!(m.avg_disk_mbyte(), smoothed(2_000));
    assert_eq!(m.avg_network_mbit(), smoothed(2_000));
}

#[test]
fn failed_read_skips_only_that_metric() {
    let mut m = Metrics::new();
    m.fetch(Sample {
        time_us: 0,
        cpu: None,
        memory: Some(MemoryStatus { total_phys: 10, avail_phys: 1 }),
        disk: None,
        network: None,
    });
    assert_eq!(m.avg_memory_percent(), 90_000);
    assert_eq!(m.avg_cpu_percent(), 0);
    m.fetch(empty_sample(1_000_000));
    assert_eq!(m.avg_memory_percent(), 90_000);
}

#[test]
fn disk_rate_uses_its_own_previous_reading() {
    let mut m = Metrics::new();
    m.fetch(Sample {
        time_us: 0,
        cpu: None,
        memory: None,
        disk: Some(DiskBytes { read: 0, written: 0 }),
        network: None,
    });
    // The disk read fails on the next tick.
    m.fetch(empty_sample(1_000_000));
    m.fetch(Sample {
        time_us: 2_000_000,
        cpu: None,
        memory: None,
        disk: Some(DiskBytes { read: 4 * 1_048_576, written: 0 }),
        network: None,
    });
    // 4 MiB over the 2 s since the disk's last reading: 2 MiB/s.
    assert_eq!(m.avg_disk_mbyte(), (2_000 * (65536 - 41353)) / 65536);
}
