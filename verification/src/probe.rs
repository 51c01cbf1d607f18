//! The instrumentation probe: samples elapsed wall-clock time and
//! resident process memory around exactly one invocation of an
//! operation, and combines them into a `Measurement`.

use vstd::prelude::*;

use crate::metric::{Measurement, QueryLabel};
use crate::search::{SearchResult, StrategyKind};

verus! {

#[verifier::external_type_specification]
#[verifier::external_body]
pub struct ExInstant(std::time::Instant);

/// Relies on std's `Instant::now`: an opaque reading of a monotonic
/// clock. Nothing is promised of its value.
#[verifier::external_body]
fn clock_now() -> std::time::Instant {
    std::time::Instant::now()
}

/// Relies on std's `Instant::elapsed`, converted to whole
/// milliseconds and truncated to 64 bits. Elapsed time depends on the
/// machine, so nothing is promised of the value.
#[verifier::external_body]
fn clock_elapsed_ms(start: &std::time::Instant) -> (ms: u64)
{
    let ms = start.elapsed().as_millis();
    if ms > u64::MAX as u128 {
        u64::MAX
    } else {
        ms as u64
    }
}

/// Relies on sysinfo's `System::new_all`, `System::refresh_processes`,
/// `get_current_pid`, `System::process` and `Process::memory`: the
/// current process's resident memory in kibibytes, or `None` when the
/// host cannot report it. A best-effort sample; nothing is promised of
/// the value.
#[verifier::external_body]
fn sample_resident_memory_kb() -> (mem: Option<u64>)
{
    let mut sys = sysinfo::System::new_all();
    sys.refresh_processes();
    let pid = sysinfo::get_current_pid().ok()?;
    let process = sys.process(pid)?;
    Some(process.memory() / 1024)
}

/// Relies on chrono's `Local::now` and `DateTime::to_rfc3339`: the
/// current local wall-clock time as an RFC 3339 string. Time depends
/// on the machine, so nothing is promised of the value.
#[verifier::external_body]
fn now_rfc3339() -> String {
    chrono::Local::now().to_rfc3339()
}

/// Scoped acquisition around one unit of work: samples resident
/// memory, starts a monotonic clock, invokes the operation exactly
/// once, stops the clock, re-samples memory, and combines it all into
/// one measurement. When a memory sample is unavailable the delta
/// degrades to zero (with `memory_sampled` false) instead of aborting.
/// No sampling resource outlives the call.
pub fn measure<F: FnOnce() -> SearchResult>(
    strategy: StrategyKind,
    query: QueryLabel,
    seq_no: u64,
    operation: F,
) -> (m: Measurement)
    requires
        call_requires(operation, ()),
    ensures
        m.seq_no == seq_no,
        m.strategy == strategy,
        m.query == query,
        call_ensures(operation, (), m.outcome),
        !m.memory_sampled ==> m.memory_delta_kb == 0,
{
    let timestamp = now_rfc3339();
    let mem_before = sample_resident_memory_kb();
    let start = clock_now();
    let outcome = operation();
    let elapsed_ms = clock_elapsed_ms(&start);
    let mem_after = sample_resident_memory_kb();
    let (memory_delta_kb, memory_sampled): (i64, bool) = match (mem_before, mem_after) {
        (Some(before), Some(after)) => {
            let wide: i128 = after as i128 - before as i128;
            let clamped: i64 = if wide > i64::MAX as i128 {
                i64::MAX
            } else if wide < i64::MIN as i128 {
                i64::MIN
            } else {
                wide as i64
            };
            (clamped, true)
        },
        _ => (0i64, false),
    };
    Measurement {
        seq_no,
        timestamp,
        strategy,
        query,
        elapsed_ms,
        memory_delta_kb,
        memory_sampled,
        outcome,
    }
}

} // verus!
