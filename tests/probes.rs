use obenchmark::benchmarks::{
    simple_random, Benchmark, CpuBenchmark, DiskRandomIOPS32K, DiskRandomIOPS4K, DiskSequentialRead,
    DiskSequentialWrite, MemoryAvailable, MemoryCachedRead, MemoryDBOps, MemoryLatency,
    MemoryThreaded, MemoryUncachedRead, MemoryWrite,
};
use obenchmark::score::{baseline_for, CPU_BASELINE, DISK_BASELINE, MEM_BASELINE};

#[test]
fn probe_names_and_weights() {
    let all: Vec<(Box<dyn Benchmark>, &str, u64)> = vec![
        (Box::new(CpuBenchmark::new()), "CPU Advanced", 4),
        (Box::new(MemoryDBOps), "Mem DB Ops", 2),
        (Box::new(MemoryCachedRead), "Mem Cached Read", 2),
        (Box::new(MemoryUncachedRead), "Mem Uncached Read", 2),
        (Box::new(MemoryWrite), "Mem Write", 2),
        (Box::new(MemoryAvailable), "Mem Available", 1),
        (Box::new(MemoryLatency), "Mem Latency", 2),
        (Box::new(MemoryThreaded), "Mem Threaded", 2),
        (Box::new(DiskSequentialRead), "Disk Seq Read", 2),
        (Box::new(DiskSequentialWrite), "Disk Seq Write", 2),
        (Box::new(DiskRandomIOPS32K), "Disk IOPS 32K QD20", 2),
        (Box::new(DiskRandomIOPS4K), "Disk IOPS 4K QD1", 2),
    ];
    for (probe, name, weight) in &all {
        assert_eq!(probe.name(), *name);
        assert_eq!(probe.name(), probe.name());
        assert_eq!(probe.weight(), *weight);
    }
}

#[test]
fn probes_fall_in_their_categories() {
    assert_eq!(baseline_for(&CpuBenchmark::new().name().to_lowercase()), CPU_BASELINE);
    assert_eq!(baseline_for(&MemoryLatency.name().to_lowercase()), MEM_BASELINE);
    assert_eq!(baseline_for(&DiskRandomIOPS4K.name().to_lowercase()), DISK_BASELINE);
}

#[test]
fn cpu_rates_are_averaged() {
    assert_eq!(CpuBenchmark::combine_rates(&[]), 0);
    assert_eq!(CpuBenchmark::combine_rates(&[1, 2, 4]), 2);
    assert_eq!(CpuBenchmark::combine_rates(&[9; 9]), 9);
    assert_eq!(CpuBenchmark::combine_rates(&[u64::MAX, u64::MAX, u64::MAX]), u64::MAX);
}

#[test]
fn disk_offsets_mix_clock_and_seed() {
    assert_eq!(simple_random(0, 0), 12345);
    assert_eq!(simple_random(1, 0), 1_103_527_590);
    assert_eq!(simple_random(1, 1), 1_103_527_591);
    assert_eq!(simple_random(u64::MAX, 5), 18_446_744_072_606_048_713);
}
