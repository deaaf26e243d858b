use vstd::prelude::*;

use crate::shared_state::GlobalSharedState;

verus! {

/// Elapsed campaign time, broken into whole days, hours, minutes and
/// seconds for the dashboard.
#[derive(Clone, Copy, PartialEq, Eq, Structural, Debug)]
pub struct RunTime {
    pub days: u64,
    pub hours: u64,
    pub minutes: u64,
    pub seconds: u64,
}

/// Break an elapsed number of seconds into the days, hours, minutes and
/// seconds the dashboard shows.
pub fn elapsed_run_time(secs: u64) -> (r: RunTime)
    ensures
        r.seconds == secs % 60,
        r.minutes == (secs / 60) % 60,
        r.hours == (secs / 60 / 60) % 24,
        r.days == secs / 60 / 60 / 24,
        r.days * 86400 + r.hours * 3600 + r.minutes * 60 + r.seconds == secs,
{
    let minutes = secs / 60;
    let hours = minutes / 60;
    let days = hours / 24;
    proof {
        assert(secs == 60 * (secs / 60) + secs % 60);
        assert(secs / 60 == 60 * (secs / 60 / 60) + (secs / 60) % 60);
        assert(secs / 60 / 60 == 24 * (secs / 60 / 60 / 24) + (secs / 60 / 60) % 24);
    }
    RunTime { days, hours: hours % 24, minutes: minutes % 60, seconds: secs % 60 }
}

/// How long the corpus-store busy flag may stay continuously set before
/// the lock-holder is treated as permanently stalled.
pub const CORPUS_WATCHDOG_SECS: u64 = 30;

/// The corpus-store liveness watchdog's verdict (its fatal abort is the
/// caller's to perform): the reporter is starved exactly when the busy
/// flag is still set and has been set continuously for the whole watchdog
/// window.
pub fn reporter_starved(is_locked: bool, locked_secs: u64) -> (r: bool)
    ensures
        r == (is_locked && locked_secs >= CORPUS_WATCHDOG_SECS),
{
    is_locked && locked_secs >= CORPUS_WATCHDOG_SECS
}

/// What the status reporter shows: a copy of the shared counters and crash
/// descriptors, taken while holding the global lock so that formatting can
/// happen outside the critical section.
pub struct StatusSnapshot {
    pub execution_count: u64,
    pub average_executions_per_sec: u32,
    pub queue_len: usize,
    pub bits_found_by_gen: u64,
    pub bits_found_by_min: u64,
    pub bits_found_by_min_rec: u64,
    pub bits_found_by_det: u64,
    pub bits_found_by_det_afl: u64,
    pub bits_found_by_splice: u64,
    pub bits_found_by_havoc: u64,
    pub bits_found_by_havoc_rec: u64,
    pub last_found_asan: String,
    pub last_found_sig: String,
    pub last_timeout: String,
    pub total_found_asan: u64,
    pub total_found_sig: u64,
    pub state_saved: String,
}

/// Copy the counters and crash descriptors out of the shared state,
/// changing nothing.
pub fn snapshot(stats: &GlobalSharedState) -> (s: StatusSnapshot)
    ensures
        s.execution_count == stats.execution_count,
        s.average_executions_per_sec == stats.average_executions_per_sec,
        s.queue_len == stats.queue.pending().len(),
        s.bits_found_by_gen == stats.bits_found_by_gen,
        s.bits_found_by_min == stats.bits_found_by_min,
        s.bits_found_by_min_rec == stats.bits_found_by_min_rec,
        s.bits_found_by_det == stats.bits_found_by_det,
        s.bits_found_by_det_afl == stats.bits_found_by_det_afl,
        s.bits_found_by_splice == stats.bits_found_by_splice,
        s.bits_found_by_havoc == stats.bits_found_by_havoc,
        s.bits_found_by_havoc_rec == stats.bits_found_by_havoc_rec,
        s.last_found_asan@ == stats.last_found_asan@,
        s.last_found_sig@ == stats.last_found_sig@,
        s.last_timeout@ == stats.last_timeout@,
        s.total_found_asan == stats.total_found_asan,
        s.total_found_sig == stats.total_found_sig,
        s.state_saved@ == stats.state_saved@,
{
    StatusSnapshot {
        execution_count: stats.execution_count,
        average_executions_per_sec: stats.average_executions_per_sec,
        queue_len: stats.queue.len(),
        bits_found_by_gen: stats.bits_found_by_gen,
        bits_found_by_min: stats.bits_found_by_min,
        bits_found_by_min_rec: stats.bits_found_by_min_rec,
        bits_found_by_det: stats.bits_found_by_det,
        bits_found_by_det_afl: stats.bits_found_by_det_afl,
        bits_found_by_splice: stats.bits_found_by_splice,
        bits_found_by_havoc: stats.bits_found_by_havoc,
        bits_found_by_havoc_rec: stats.bits_found_by_havoc_rec,
        last_found_asan: stats.last_found_asan.clone(),
        last_found_sig: stats.last_found_sig.clone(),
        last_timeout: stats.last_timeout.clone(),
        total_found_asan: stats.total_found_asan,
        total_found_sig: stats.total_found_sig,
        state_saved: stats.state_saved.clone(),
    }
}

} // verus!
