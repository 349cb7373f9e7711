use vstd::prelude::*;
use crate::driver::{run_once, EntrySetup, RunError, RunOutcome};

verus! {

#[verifier::external_type_specification]
#[verifier::external_body]
pub struct ExInstant(std::time::Instant);

/// The gas each run starts with: far more than any run of the guests needs,
/// so that running out is a failure of the harness.
pub const GAS_BUDGET: u64 = 1000000000000000;

/// How many warm runs are averaged where warm runs are measured.
pub const WARM_ITERATIONS: u32 = 10;

/// Relies on `std::time::Instant::now`.
#[verifier::external_body]
fn now() -> std::time::Instant {
    std::time::Instant::now()
}

/// Relies on `std::time::Instant::elapsed` and `Duration::as_nanos`: the
/// nanoseconds since `start`.
#[verifier::external_body]
fn nanos_since(start: &std::time::Instant) -> u128 {
    start.elapsed().as_nanos()
}

/// What one benchmark of a program under one cost model gives.
#[derive(Clone, Copy, Debug, PartialEq, Eq, Structural)]
pub struct BenchmarkResult {
    /// The value of the result register after the cold run.
    pub result: u64,
    /// The gas that the cold run consumed.
    pub gas_used: u64,
    /// How long the cold run took, in nanoseconds.
    pub cold_nanos: u128,
    /// How many warm runs were made.
    pub warm_runs: u32,
    /// How long a warm run took on average, in nanoseconds, where any were made.
    pub warm_average_nanos: Option<u128>,
}

/// The average of `runs` durations that add up to `total`, rounded down.
pub fn average_nanos(total: u128, runs: u32) -> (r: u128)
    requires
        runs > 0,
    ensures
        r == total / (runs as u128),
        r * (runs as u128) <= total,
{
    let r = total / (runs as u128);
    assert(r * (runs as u128) <= total) by (nonlinear_arith)
        requires
            r == total / (runs as u128),
            runs > 0,
    ;
    r
}

/// How many warm runs to make: `WARM_ITERATIONS` for the first cost model
/// of a sequence, none for the others.
pub fn warm_plan(is_first: bool) -> (r: Option<u32>)
    ensures
        is_first ==> r == Some(WARM_ITERATIONS),
        !is_first ==> r is None,
{
    if is_first {
        Some(WARM_ITERATIONS)
    } else {
        None
    }
}

/// The report of a benchmark: the cold run's outcome and duration, and,
/// where `warm` is `Some((n, total))`, `n` warm runs that took `total`
/// nanoseconds together.
pub fn bench_result(cold: RunOutcome, cold_nanos: u128, warm: Option<(u32, u128)>) -> (r: BenchmarkResult)
    requires
        warm matches Some((n, _)) ==> n > 0,
    ensures
        r.result == cold.result,
        r.gas_used == cold.gas_used,
        r.cold_nanos == cold_nanos,
        warm matches Some((n, t)) ==> r.warm_runs == n && r.warm_average_nanos == Some(t / (n as u128)),
        warm is None ==> r.warm_runs == 0 && r.warm_average_nanos is None,
{
    match warm {
        Some((n, total)) => BenchmarkResult {
            result: cold.result,
            gas_used: cold.gas_used,
            cold_nanos,
            warm_runs: n,
            warm_average_nanos: Some(average_nanos(total, n)),
        },
        None => BenchmarkResult {
            result: cold.result,
            gas_used: cold.gas_used,
            cold_nanos,
            warm_runs: 0,
            warm_average_nanos: None,
        },
    }
}

/// One timed cold run, then, for `warm_iterations` of `Some(n)` with `n > 0`,
/// `n` more runs, each in a fresh instance, timed together and averaged.
pub fn benchmark(
    module: &polkavm::Module,
    setup: &EntrySetup,
    aux: &[u8],
    gas_budget: u64,
    warm_iterations: Option<u32>,
) -> (r: Result<BenchmarkResult, RunError>)
    requires
        gas_budget <= i64::MAX,
    ensures
        r matches Ok(b) ==> b.gas_used <= gas_budget,
        r matches Ok(b) ==> b.warm_runs == match warm_iterations {
            Some(n) => n,
            None => 0,
        },
        r matches Ok(b) ==> (b.warm_average_nanos is Some <==> b.warm_runs > 0),
{
    let start = now();
    let cold = match run_once(module, setup, aux, gas_budget) {
        Ok(o) => o,
        Err(e) => return Err(e),
    };
    let cold_nanos = nanos_since(&start);
    let n: u32 = match warm_iterations {
        Some(n) => n,
        None => 0,
    };
    if n == 0 {
        return Ok(bench_result(cold, cold_nanos, None));
    }
    let start = now();
    let mut done: u32 = 0;
    while done < n
        invariant
            done <= n,
            gas_budget <= i64::MAX,
        decreases n - done,
    {
        if let Err(e) = run_once(module, setup, aux, gas_budget) {
            return Err(e);
        }
        done = done + 1;
    }
    let total = nanos_since(&start);
    Ok(bench_result(cold, cold_nanos, Some((done, total))))
}

} // verus!
