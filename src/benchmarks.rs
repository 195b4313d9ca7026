//! The probes of the standard battery: what the engine knows of each one.
//!
//! A probe's workload is outside the engine; here each probe states the name
//! under which it is reported and classified, and its weight.

use vstd::prelude::*;

verus! {

/// A named, weighted probe.
pub trait Benchmark {
    /// The name used for display and for baseline lookup; the same on every call.
    fn name(&self) -> (r: String);

    /// The probe's relative importance in the final score.
    fn weight(&self) -> (r: u64)
        ensures
            r >= 1,
    ;
}

/// Mean of the values, truncated; zero for no values.
pub open spec fn mean_of(values: Seq<u64>) -> int {
    if values.len() == 0 {
        0
    } else {
        sum_of(values) / values.len() as int
    }
}

/// Sum of the values.
pub open spec fn sum_of(values: Seq<u64>) -> int
    decreases values.len(),
{
    if values.len() == 0 {
        0
    } else {
        sum_of(values.drop_last()) + values.last()
    }
}

/// `(time * 1103515245 + 12345) ^ seed` in wrapping 64-bit arithmetic.
pub open spec fn mixed(time_nanos: u64, seed: u64) -> u64 {
    (((time_nanos * 1103515245 + 12345) % 0x1_0000_0000_0000_0000) as u64) ^ seed
}

/// Pseudo-random number used to pick disk offsets: a linear congruential
/// step over a clock reading in nanoseconds, mixed with a seed.
pub fn simple_random(time_nanos: u64, seed: u64) -> (r: u64)
    ensures
        r == mixed(time_nanos, seed),
{
    time_nanos.wrapping_mul(1103515245).wrapping_add(12345) ^ seed
}

/// The CPU probe: nine integer and floating-point kernels.
#[derive(Debug)]
pub struct CpuBenchmark;

impl CpuBenchmark {
    pub fn new() -> (r: CpuBenchmark) {
        CpuBenchmark
    }

    /// Combines the rates of the CPU kernels into the probe's raw score: their
    /// mean, truncated.
    pub fn combine_rates(rates: &[u64]) -> (r: u64)
        ensures
            r == mean_of(rates@),
    {
        let mut sum: u128 = 0;
        let mut i: usize = 0;
        while i < rates.len()
            invariant
                i <= rates@.len(),
                sum == sum_of(rates@.subrange(0, i as int)),
                sum <= i * (u64::MAX as int),
            decreases rates@.len() - i,
        {
            assert(rates@.subrange(0, i + 1).drop_last() =~= rates@.subrange(0, i as int));
            assert(sum + rates[i as int] <= (i + 1) * (u64::MAX as int)) by (nonlinear_arith)
                requires
                    sum <= i * (u64::MAX as int),
                    rates[i as int] <= u64::MAX,
            ;
            assert((i + 1) * (u64::MAX as int) < u128::MAX) by (nonlinear_arith)
                requires
                    i < usize::MAX,
                    usize::MAX <= u64::MAX,
            ;
            sum = sum + rates[i] as u128;
            i = i + 1;
        }
        assert(rates@.subrange(0, i as int) =~= rates@);
        if i == 0 {
            0
        } else {
            let n: u128 = i as u128;
            assert(sum / n <= u64::MAX) by (nonlinear_arith)
                requires
                    sum <= n * (u64::MAX as int),
                    n >= 1,
            ;
            (sum / n) as u64
        }
    }
}

impl Benchmark for CpuBenchmark {
    fn name(&self) -> (r: String)
        ensures
            r@ == "CPU Advanced"@,
    {
        String::from_str("CPU Advanced")
    }

    fn weight(&self) -> (r: u64)
        ensures
            r == 4,
    {
        4
    }
}

/// Sequential read of a large file.
#[derive(Debug)]
pub struct DiskSequentialRead;

impl Benchmark for DiskSequentialRead {
    fn name(&self) -> (r: String)
        ensures
            r@ == "Disk Seq Read"@,
    {
        String::from_str("Disk Seq Read")
    }

    fn weight(&self) -> (r: u64)
        ensures
            r == 2,
    {
        2
    }
}

/// Sequential write of a large file.
#[derive(Debug)]
pub struct DiskSequentialWrite;

impl Benchmark for DiskSequentialWrite {
    fn name(&self) -> (r: String)
        ensures
            r@ == "Disk Seq Write"@,
    {
        String::from_str("Disk Seq Write")
    }

    fn weight(&self) -> (r: u64)
        ensures
            r == 2,
    {
        2
    }
}

/// Random 32 KiB reads at queue depth 20.
#[derive(Debug)]
pub struct DiskRandomIOPS32K;

impl Benchmark for DiskRandomIOPS32K {
    fn name(&self) -> (r: String)
        ensures
            r@ == "Disk IOPS 32K QD20"@,
    {
        String::from_str("Disk IOPS 32K QD20")
    }

    fn weight(&self) -> (r: u64)
        ensures
            r == 2,
    {
        2
    }
}

/// Random 4 KiB reads at queue depth 1.
#[derive(Debug)]
pub struct DiskRandomIOPS4K;

impl Benchmark for DiskRandomIOPS4K {
    fn name(&self) -> (r: String)
        ensures
            r@ == "Disk IOPS 4K QD1"@,
    {
        String::from_str("Disk IOPS 4K QD1")
    }

    fn weight(&self) -> (r: u64)
        ensures
            r == 2,
    {
        2
    }
}

/// Database-like pushes and lookups in memory.
#[derive(Debug)]
pub struct MemoryDBOps;

impl Benchmark for MemoryDBOps {
    fn name(&self) -> (r: String)
        ensures
            r@ == "Mem DB Ops"@,
    {
        String::from_str("Mem DB Ops")
    }

    fn weight(&self) -> (r: u64)
        ensures
            r == 2,
    {
        2
    }
}

/// Repeated reads of a buffer that fits in cache.
#[derive(Debug)]
pub struct MemoryCachedRead;

impl Benchmark for MemoryCachedRead {
    fn name(&self) -> (r: String)
        ensures
            r@ == "Mem Cached Read"@,
    {
        String::from_str("Mem Cached Read")
    }

    fn weight(&self) -> (r: u64)
        ensures
            r == 2,
    {
        2
    }
}

/// One read of a buffer larger than cache.
#[derive(Debug)]
pub struct MemoryUncachedRead;

impl Benchmark for MemoryUncachedRead {
    fn name(&self) -> (r: String)
        ensures
            r@ == "Mem Uncached Read"@,
    {
        String::from_str("Mem Uncached Read")
    }

    fn weight(&self) -> (r: u64)
        ensures
            r == 2,
    {
        2
    }
}

/// Writes over a large buffer.
#[derive(Debug)]
pub struct MemoryWrite;

impl Benchmark for MemoryWrite {
    fn name(&self) -> (r: String)
        ensures
            r@ == "Mem Write"@,
    {
        String::from_str("Mem Write")
    }

    fn weight(&self) -> (r: u64)
        ensures
            r == 2,
    {
        2
    }
}

/// Memory available on the machine.
#[derive(Debug)]
pub struct MemoryAvailable;

impl Benchmark for MemoryAvailable {
    fn name(&self) -> (r: String)
        ensures
            r@ == "Mem Available"@,
    {
        String::from_str("Mem Available")
    }

    fn weight(&self) -> (r: u64)
        ensures
            r == 1,
    {
        1
    }
}

/// Latency of chained dependent reads.
#[derive(Debug)]
pub struct MemoryLatency;

impl Benchmark for MemoryLatency {
    fn name(&self) -> (r: String)
        ensures
            r@ == "Mem Latency"@,
    {
        String::from_str("Mem Latency")
    }

    fn weight(&self) -> (r: u64)
        ensures
            r == 2,
    {
        2
    }
}

/// Writes from one thread per core.
#[derive(Debug)]
pub struct MemoryThreaded;

impl Benchmark for MemoryThreaded {
    fn name(&self) -> (r: String)
        ensures
            r@ == "Mem Threaded"@,
    {
        String::from_str("Mem Threaded")
    }

    fn weight(&self) -> (r: u64)
        ensures
            r == 2,
    {
        2
    }
}

} // verus!
