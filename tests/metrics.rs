use host_agent::health::health_status;
use host_agent::snapshot::{memory_stats, metrics_snapshot, MemoryStats, MetricsSnapshot};
use host_agent::usage::{cpu_usage_percent, FULL_CORE};

#[test]
fn mean_of_two_cores() {
    assert_eq!(cpu_usage_percent(&vec![5000, 3001]), 4000);
}

#[test]
fn mean_of_one_core_is_its_reading() {
    assert_eq!(cpu_usage_percent(&vec![1234]), 1234);
}

#[test]
fn no_cores_reads_zero() {
    assert_eq!(cpu_usage_percent(&vec![]), 0);
}

#[test]
fn readings_within_range_give_mean_within_range() {
    let busy = vec![FULL_CORE; 64];
    assert_eq!(cpu_usage_percent(&busy), FULL_CORE);
    let idle = vec![0u32; 64];
    assert_eq!(cpu_usage_percent(&idle), 0);
    let mixed = vec![0, FULL_CORE, 2500, 7500];
    let r = cpu_usage_percent(&mixed);
    assert_eq!(r, 5000);
    assert!(r <= FULL_CORE);
}

#[test]
fn large_readings_do_not_overflow() {
    let v = vec![u32::MAX; 1000];
    assert_eq!(cpu_usage_percent(&v), u32::MAX);
}

#[test]
fn free_memory_is_total_minus_used() {
    let m = memory_stats(16_000_000_000, 6_000_000_000, 8);
    assert_eq!(
        m,
        MemoryStats {
            total_memory: 16_000_000_000,
            used_memory: 6_000_000_000,
            free_memory: 10_000_000_000,
            cpu_cores: 8,
        }
    );
    assert_eq!(m.used_memory + m.free_memory, m.total_memory);
}

#[test]
fn used_reading_above_total_is_capped() {
    let m = memory_stats(100, 130, 2);
    assert_eq!(m.used_memory, 100);
    assert_eq!(m.free_memory, 0);
    assert_eq!(m.used_memory + m.free_memory, m.total_memory);
}

#[test]
fn all_memory_free_and_all_used() {
    let m = memory_stats(u64::MAX, 0, 1);
    assert_eq!(m.free_memory, u64::MAX);
    let m = memory_stats(u64::MAX, u64::MAX, 1);
    assert_eq!(m.free_memory, 0);
}

#[test]
fn snapshot_combines_cpu_and_memory() {
    let s = metrics_snapshot(&vec![10000, 0, 5000, 5000], 1000, 250);
    assert_eq!(
        s,
        MetricsSnapshot {
            cpu_usage: 5000,
            total_memory: 1000,
            used_memory: 250,
            free_memory: 750,
            cpu_cores: 4,
        }
    );
}

#[test]
fn snapshot_with_no_cores() {
    let s = metrics_snapshot(&vec![], 1000, 1000);
    assert_eq!(s.cpu_usage, 0);
    assert_eq!(s.cpu_cores, 0);
    assert_eq!(s.free_memory, 0);
}

#[test]
fn health_is_ok_with_given_uptime() {
    let h = health_status(42);
    assert_eq!(h.status, "ok");
    assert_eq!(h.uptime, 42);
    let h = health_status(0);
    assert_eq!(h.status, "ok");
    assert_eq!(h.uptime, 0);
}

#[test]
fn snapshot_from_the_running_machine() {
    let mut sys = sysinfo::System::new();
    sys.refresh_memory();
    let s = metrics_snapshot(&vec![2000, 4000, 6000], sys.total_memory(), sys.used_memory());
    assert!(s.total_memory > 0);
    assert_eq!(s.total_memory, sys.total_memory());
    assert_eq!(s.used_memory, sys.used_memory().min(sys.total_memory()));
    assert_eq!(s.used_memory + s.free_memory, s.total_memory);
    assert_eq!(s.cpu_usage, 4000);
    assert_eq!(s.cpu_cores, 3);
}
