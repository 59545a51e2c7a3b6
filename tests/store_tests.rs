use cpu_monitor::{
    build_snapshot, fixed_update, update_system_usage, AppSystemInfo, HostReading, LoadAverage,
    MetricsStore, NetworkInfo, SnapshotCopy,
};

fn reading(cores: Vec<u32>, total_memory: u64, rx: u64) -> HostReading {
    HostReading {
        cpu_usage: cores,
        total_memory,
        available_memory: total_memory / 2,
        total_swap: 100,
        used_swap: 25,
        load_average: LoadAverage { one: 1, five: 2, fifteen: 3 },
        networks: vec![("eth0".to_string(), NetworkInfo { rx, tx: rx + 1 })],
    }
}

#[test]
fn new_store_has_nothing_to_read() {
    let store = MetricsStore::new();
    assert!(store.try_read().is_none());
    assert_eq!(store.publish_index(), 0);
    assert_eq!(store.cpu_count(), 0);
}

#[test]
fn read_after_publish_returns_that_snapshot() {
    let mut store = MetricsStore::new();
    let s = build_snapshot(&reading(vec![1000, 2000], 1000, 7));
    store.publish(s.copy_snapshot());
    let c = store.try_read().unwrap();
    assert_eq!(c.publish_index, 1);
    assert_eq!(c.info, s);
}

#[test]
fn two_reads_without_publish_are_identical() {
    let mut store = MetricsStore::new();
    store.publish(build_snapshot(&reading(vec![1000, 2000, 3000, 4000], 1000, 7)));
    let a = store.try_read();
    let b = store.try_read();
    assert!(a.is_some());
    assert_eq!(a, b);
}

#[test]
fn reads_never_mix_two_publishes() {
    let mut store = MetricsStore::new();
    store.publish(build_snapshot(&reading(vec![100], 1000, 1)));
    let first = store.try_read().unwrap();
    store.publish(build_snapshot(&reading(vec![200], 4000, 2)));
    let second = store.try_read().unwrap();
    assert_eq!(first.info.total_mem, 1000);
    assert_eq!(first.info.cpu_usage_per_cpu, vec![100]);
    assert_eq!(first.info.networks[0].1.rx, 1);
    assert_eq!(second.info.total_mem, 4000);
    assert_eq!(second.info.cpu_usage_per_cpu, vec![200]);
    assert_eq!(second.info.networks[0].1.rx, 2);
}

#[test]
fn publish_index_never_goes_back() {
    let mut store = MetricsStore::new();
    let mut last: u64 = 0;
    for k in 0..5u64 {
        store.publish(build_snapshot(&reading(vec![10], 100, k)));
        let c = store.try_read().unwrap();
        assert!(c.publish_index > last);
        assert_eq!(c.publish_index, k + 1);
        last = c.publish_index;
    }
}

#[test]
fn core_count_fixed_by_first_publish() {
    let mut store = MetricsStore::new();
    store.publish(build_snapshot(&reading(vec![10, 20, 30, 40], 100, 0)));
    assert_eq!(store.cpu_count(), 4);
    store.publish(build_snapshot(&reading(vec![1, 2, 3, 4, 5, 6], 100, 0)));
    let c = store.try_read().unwrap();
    assert_eq!(c.info.cpu_usage_per_cpu, vec![1, 2, 3, 4]);
    assert_eq!(c.info.cpu_count, 4);
    store.publish(build_snapshot(&reading(vec![7, 8], 100, 0)));
    let c = store.try_read().unwrap();
    assert_eq!(c.info.cpu_usage_per_cpu, vec![7, 8, 0, 0]);
    assert_eq!(c.info.cpu_count, 4);
}

#[test]
fn pass_without_reading_publishes_nothing() {
    let mut store = MetricsStore::new();
    assert!(!update_system_usage(&mut store, None));
    assert!(store.try_read().is_none());
    assert!(update_system_usage(&mut store, Some(reading(vec![5, 6], 200, 3))));
    let before = store.try_read();
    assert!(!update_system_usage(&mut store, None));
    assert_eq!(store.try_read(), before);
    assert_eq!(store.publish_index(), 1);
}

#[test]
fn pass_publishes_the_reading() {
    let mut store = MetricsStore::new();
    assert!(update_system_usage(&mut store, Some(reading(vec![1000, 2000], 1000, 9))));
    let c = store.try_read().unwrap();
    assert_eq!(c.info.mem_usage, 5000);
    assert_eq!(c.info.swap_usage, 2500);
    assert_eq!(c.info.cpu_usage_per_cpu, vec![1000, 2000]);
    assert_eq!(c.info.networks, vec![("eth0".to_string(), NetworkInfo { rx: 9, tx: 10 })]);
}

#[test]
fn fixed_update_keeps_copy_when_unavailable() {
    let mut fixed = build_snapshot(&reading(vec![1, 2], 100, 1));
    let before = fixed.copy_snapshot();
    fixed_update(&mut fixed, None);
    assert_eq!(fixed, before);
}

#[test]
fn fixed_update_takes_new_copy() {
    let mut fixed = AppSystemInfo::zeroed();
    let s = build_snapshot(&reading(vec![3, 4, 5], 300, 2));
    fixed_update(&mut fixed, Some(SnapshotCopy { publish_index: 3, info: s.copy_snapshot() }));
    assert_eq!(fixed, s);
}

#[test]
fn published_snapshot_of_four_core_host() {
    let mut store = MetricsStore::new();
    let r = HostReading {
        cpu_usage: vec![1000, 2000, 3000, 4000],
        total_memory: 1_000_000,
        available_memory: 250_000,
        total_swap: 500_000,
        used_swap: 50_000,
        load_average: LoadAverage { one: 0, five: 0, fifteen: 0 },
        networks: Vec::new(),
    };
    assert!(update_system_usage(&mut store, Some(r)));
    let c = store.try_read().unwrap();
    assert_eq!(c.info.mem_usage, 7500);
    assert_eq!(c.info.swap_usage, 1000);
    assert_eq!(c.info.cpu_usage_per_cpu, vec![1000, 2000, 3000, 4000]);
}
