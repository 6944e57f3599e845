//! Benchmark arithmetic: turns cycle-counter readings taken around inference
//! loops into throughput figures and a per-stage breakdown.
//!
//! The cycle counter itself is a platform capability (a zero-argument
//! function returning a monotonically non-decreasing count); the caller
//! samples it before and after a loop and hands the readings in. Everything
//! here is pure integer arithmetic over those readings.

use vstd::prelude::*;

verus! {

/// The clock rate assumed when converting cycles to inferences per second.
pub const ASSUMED_CLOCK_HZ: u64 = 1_000_000_000;

/// Multiply-accumulate operations in one forward pass of the fixed
/// 784 -> 256 -> 128 -> 10 network.
pub const MAC_OPS_PER_INFERENCE: u64 = 784 * 256 + 256 * 128 + 128 * 10;

/// The report of one benchmark run.
pub struct BenchReport {
    /// Cycles elapsed over the whole measured loop.
    pub total_cycles: u64,
    /// Cycles per single inference (flooring average).
    pub cycles_per_inference: u64,
    /// Inferences per second at the assumed clock rate (0 when no cycle
    /// elapsed).
    pub inferences_per_second: u64,
    /// Multiply-accumulate operations executed by the measured loop.
    pub total_mac_operations: u64,
}

/// A coarse label for a cycles-per-inference figure.
#[derive(Clone, Copy, Debug, PartialEq, Eq, Structural)]
pub enum PerfClass {
    /// Under 100,000 cycles per inference.
    Excellent,
    /// Under 500,000 cycles per inference.
    Good,
    /// Under 2,000,000 cycles per inference.
    Moderate,
    /// 2,000,000 cycles per inference or more.
    NeedsOptimization,
}

/// Label a cycles-per-inference figure.
pub fn classify_cycles(cycles_per_inference: u64) -> (r: PerfClass)
    ensures
        r == PerfClass::Excellent <==> cycles_per_inference < 100_000,
        r == PerfClass::Good <==> 100_000 <= cycles_per_inference < 500_000,
        r == PerfClass::Moderate <==> 500_000 <= cycles_per_inference < 2_000_000,
        r == PerfClass::NeedsOptimization <==> 2_000_000 <= cycles_per_inference,
{
    if cycles_per_inference < 100_000 {
        PerfClass::Excellent
    } else if cycles_per_inference < 500_000 {
        PerfClass::Good
    } else if cycles_per_inference < 2_000_000 {
        PerfClass::Moderate
    } else {
        PerfClass::NeedsOptimization
    }
}

/// Build the benchmark report from the counter readings around a loop of
/// `iterations` inference calls. The counter is monotonic, so the readings
/// must not decrease across the loop.
pub fn benchmark_report(start_cycles: u64, end_cycles: u64, iterations: u64) -> (r: BenchReport)
    requires
        start_cycles <= end_cycles,
        1 <= iterations,
        iterations * ASSUMED_CLOCK_HZ <= u64::MAX,
        iterations * MAC_OPS_PER_INFERENCE <= u64::MAX,
    ensures
        r.total_cycles == end_cycles - start_cycles,
        r.cycles_per_inference == (end_cycles - start_cycles) as int / iterations as int,
        r.total_cycles > 0 ==> r.inferences_per_second == (ASSUMED_CLOCK_HZ * iterations) as int
            / r.total_cycles as int,
        r.total_cycles == 0 ==> r.inferences_per_second == 0,
        r.total_mac_operations == iterations * MAC_OPS_PER_INFERENCE,
{
    let total_cycles = end_cycles - start_cycles;
    let cycles_per_inference = total_cycles / iterations;
    let inferences_per_second = if total_cycles > 0 {
        proof {
            assert(ASSUMED_CLOCK_HZ * iterations == iterations * ASSUMED_CLOCK_HZ);
        }
        (ASSUMED_CLOCK_HZ * iterations) / total_cycles
    } else {
        0
    };
    let total_mac_operations = iterations * MAC_OPS_PER_INFERENCE;
    BenchReport { total_cycles, cycles_per_inference, inferences_per_second, total_mac_operations }
}

/// Average cycles per call for one isolated pipeline stage, from the counter
/// readings around a loop of `iterations` calls.
pub fn stage_cycles(start_cycles: u64, end_cycles: u64, iterations: u64) -> (r: u64)
    requires
        start_cycles <= end_cycles,
        1 <= iterations,
    ensures
        r == (end_cycles - start_cycles) as int / iterations as int,
{
    (end_cycles - start_cycles) / iterations
}

/// The share of `part` in `total`, in whole percent (flooring).
pub fn stage_percent(part: u64, total: u64) -> (r: u64)
    requires
        0 < total,
        part * 100 <= u64::MAX,
    ensures
        r == (part * 100) as int / total as int,
{
    (part * 100) / total
}

} // verus!
