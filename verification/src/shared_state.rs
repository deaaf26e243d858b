use vstd::prelude::*;

use crate::queue::Queue;

verus! {

/// Process-wide aggregate state, shared by every thread behind one lock:
/// the queue, the campaign-wide counters, the crash descriptors and the
/// checkpoint timestamp. Mutated only while the lock is held; the lock
/// itself is its callers' concern.
pub struct GlobalSharedState {
    pub queue: Queue,
    /// Total target executions across all workers.
    pub execution_count: u64,
    /// Approximate running throughput gauge: the sum of each worker's most
    /// recently contributed local reading, not a true windowed average.
    pub average_executions_per_sec: u32,
    pub bits_found_by_gen: u64,
    pub bits_found_by_min: u64,
    pub bits_found_by_min_rec: u64,
    pub bits_found_by_det: u64,
    pub bits_found_by_det_afl: u64,
    pub bits_found_by_splice: u64,
    pub bits_found_by_havoc: u64,
    pub bits_found_by_havoc_rec: u64,
    pub last_found_asan: String,
    pub last_found_sig: String,
    pub last_timeout: String,
    pub total_found_asan: u64,
    pub total_found_sig: u64,
    /// When campaign state was last checkpointed, as rendered text.
    pub state_saved: String,
    /// Directory under which crash and queue artifacts are written.
    pub work_dir: String,
}

impl GlobalSharedState {
    pub fn new(work_dir: String) -> (r: GlobalSharedState)
        ensures
            r.queue.pending() == Seq::<crate::state::QueueItem>::empty(),
            r.queue.processed() == Seq::<crate::state::QueueItem>::empty(),
            r.execution_count == 0,
            r.average_executions_per_sec == 0,
            r.bits_found_by_gen == 0,
            r.bits_found_by_min == 0,
            r.bits_found_by_min_rec == 0,
            r.bits_found_by_det == 0,
            r.bits_found_by_det_afl == 0,
            r.bits_found_by_splice == 0,
            r.bits_found_by_havoc == 0,
            r.bits_found_by_havoc_rec == 0,
            r.total_found_asan == 0,
            r.total_found_sig == 0,
            r.work_dir == work_dir,
    {
        GlobalSharedState {
            queue: Queue::new(),
            execution_count: 0,
            average_executions_per_sec: 0,
            bits_found_by_gen: 0,
            bits_found_by_min: 0,
            bits_found_by_min_rec: 0,
            bits_found_by_det: 0,
            bits_found_by_det_afl: 0,
            bits_found_by_splice: 0,
            bits_found_by_havoc: 0,
            bits_found_by_havoc_rec: 0,
            last_found_asan: String::new(),
            last_found_sig: String::new(),
            last_timeout: String::new(),
            total_found_asan: 0,
            total_found_sig: 0,
            state_saved: String::new(),
            work_dir,
        }
    }
}

/// One worker's local telemetry, owned by its current execution harness:
/// the harness's own execution count, its throughput reading, and the
/// per-strategy discovery counters accumulated since the last drain.
#[derive(Clone, Copy, PartialEq, Eq, Structural, Debug)]
pub struct LocalStats {
    /// Executions performed by this harness since it was constructed;
    /// never decreases while the harness lives.
    pub execution_count: u64,
    /// This harness's current throughput reading.
    pub average_executions_per_sec: u32,
    pub bits_found_by_gen: u64,
    pub bits_found_by_min: u64,
    pub bits_found_by_min_rec: u64,
    pub bits_found_by_det: u64,
    pub bits_found_by_det_afl: u64,
    pub bits_found_by_splice: u64,
    pub bits_found_by_havoc: u64,
    pub bits_found_by_havoc_rec: u64,
}

impl LocalStats {
    /// The telemetry of a freshly constructed harness: everything zero.
    pub fn new() -> (r: LocalStats)
        ensures
            r == (LocalStats {
                execution_count: 0,
                average_executions_per_sec: 0,
                bits_found_by_gen: 0,
                bits_found_by_min: 0,
                bits_found_by_min_rec: 0,
                bits_found_by_det: 0,
                bits_found_by_det_afl: 0,
                bits_found_by_splice: 0,
                bits_found_by_havoc: 0,
                bits_found_by_havoc_rec: 0,
            }),
    {
        LocalStats {
            execution_count: 0,
            average_executions_per_sec: 0,
            bits_found_by_gen: 0,
            bits_found_by_min: 0,
            bits_found_by_min_rec: 0,
            bits_found_by_det: 0,
            bits_found_by_det_afl: 0,
            bits_found_by_splice: 0,
            bits_found_by_havoc: 0,
            bits_found_by_havoc_rec: 0,
        }
    }
}

/// What one worker last contributed to the global gauges: the execution
/// count it has already delta-added and the throughput reading it has
/// already delta-adjusted into the global gauge.
#[derive(Clone, Copy, PartialEq, Eq, Structural, Debug)]
pub struct DrainBaseline {
    pub old_execution_count: u64,
    pub old_executions_per_sec: u32,
}

impl DrainBaseline {
    /// The baseline of a worker that has contributed nothing yet.
    pub fn new() -> (r: DrainBaseline)
        ensures
            r == (DrainBaseline { old_execution_count: 0, old_executions_per_sec: 0 }),
    {
        DrainBaseline { old_execution_count: 0, old_executions_per_sec: 0 }
    }
}

/// After a harness restart the worker's baseline is reset to zero, so the
/// next drain is computed against the new harness's readings only.
pub fn reset_baseline(base: &mut DrainBaseline)
    ensures
        final(base).old_execution_count == 0,
        final(base).old_executions_per_sec == 0,
{
    base.old_execution_count = 0;
    base.old_executions_per_sec = 0;
}

/// No counter overflows its machine width during a drain, and the readings
/// are consistent with the baseline: the harness's execution count has not
/// gone backwards since the last drain, and the gauge still covers the
/// reading this worker last contributed.
pub open spec fn drain_fits(
    stats: GlobalSharedState,
    local: LocalStats,
    base: DrainBaseline,
) -> bool {
    &&& base.old_execution_count <= local.execution_count
    &&& stats.execution_count + local.execution_count - base.old_execution_count <= u64::MAX
    &&& stats.average_executions_per_sec + local.average_executions_per_sec <= u32::MAX
    &&& base.old_executions_per_sec <= stats.average_executions_per_sec
        + local.average_executions_per_sec
    &&& stats.bits_found_by_gen + local.bits_found_by_gen <= u64::MAX
    &&& stats.bits_found_by_min + local.bits_found_by_min <= u64::MAX
    &&& stats.bits_found_by_min_rec + local.bits_found_by_min_rec <= u64::MAX
    &&& stats.bits_found_by_det + local.bits_found_by_det <= u64::MAX
    &&& stats.bits_found_by_det_afl + local.bits_found_by_det_afl <= u64::MAX
    &&& stats.bits_found_by_splice + local.bits_found_by_splice <= u64::MAX
    &&& stats.bits_found_by_havoc + local.bits_found_by_havoc <= u64::MAX
    &&& stats.bits_found_by_havoc_rec + local.bits_found_by_havoc_rec <= u64::MAX
}

/// Drain one worker's local telemetry into the global state, under the
/// global lock: delta-add the execution count against the baseline,
/// delta-adjust the throughput gauge by the new reading minus the one
/// contributed before, and move every discovery counter over, zeroing the
/// local one so that no discovery is ever lost or counted twice. The global
/// execution count never decreases, even right after a harness restart.
pub fn drain_telemetry(stats: &mut GlobalSharedState, local: &mut LocalStats, base: &mut
    DrainBaseline)
    requires
        drain_fits(*old(stats), *old(local), *old(base)),
    ensures
        final(stats).execution_count == old(stats).execution_count + old(local).execution_count
            - old(base).old_execution_count,
        final(stats).execution_count >= old(stats).execution_count,
        final(stats).average_executions_per_sec == old(stats).average_executions_per_sec + old(
            local,
        ).average_executions_per_sec - old(base).old_executions_per_sec,
        final(stats).bits_found_by_gen == old(stats).bits_found_by_gen + old(
            local,
        ).bits_found_by_gen,
        final(stats).bits_found_by_min == old(stats).bits_found_by_min + old(
            local,
        ).bits_found_by_min,
        final(stats).bits_found_by_min_rec == old(stats).bits_found_by_min_rec + old(
            local,
        ).bits_found_by_min_rec,
        final(stats).bits_found_by_det == old(stats).bits_found_by_det + old(
            local,
        ).bits_found_by_det,
        final(stats).bits_found_by_det_afl == old(stats).bits_found_by_det_afl + old(
            local,
        ).bits_found_by_det_afl,
        final(stats).bits_found_by_splice == old(stats).bits_found_by_splice + old(
            local,
        ).bits_found_by_splice,
        final(stats).bits_found_by_havoc == old(stats).bits_found_by_havoc + old(
            local,
        ).bits_found_by_havoc,
        final(stats).bits_found_by_havoc_rec == old(stats).bits_found_by_havoc_rec + old(
            local,
        ).bits_found_by_havoc_rec,
        final(stats).queue == old(stats).queue,
        final(stats).last_found_asan == old(stats).last_found_asan,
        final(stats).last_found_sig == old(stats).last_found_sig,
        final(stats).last_timeout == old(stats).last_timeout,
        final(stats).total_found_asan == old(stats).total_found_asan,
        final(stats).total_found_sig == old(stats).total_found_sig,
        final(stats).state_saved == old(stats).state_saved,
        final(stats).work_dir == old(stats).work_dir,
        *final(local) == (LocalStats {
            bits_found_by_gen: 0,
            bits_found_by_min: 0,
            bits_found_by_min_rec: 0,
            bits_found_by_det: 0,
            bits_found_by_det_afl: 0,
            bits_found_by_splice: 0,
            bits_found_by_havoc: 0,
            bits_found_by_havoc_rec: 0,
            ..*old(local)
        }),
        final(base).old_execution_count == old(local).execution_count,
        final(base).old_executions_per_sec == old(local).average_executions_per_sec,
{
    stats.execution_count = stats.execution_count + (local.execution_count
        - base.old_execution_count);
    base.old_execution_count = local.execution_count;
    stats.average_executions_per_sec = stats.average_executions_per_sec
        + local.average_executions_per_sec;
    stats.average_executions_per_sec = stats.average_executions_per_sec
        - base.old_executions_per_sec;
    base.old_executions_per_sec = local.average_executions_per_sec;
    if local.bits_found_by_gen > 0 {
        stats.bits_found_by_gen = stats.bits_found_by_gen + local.bits_found_by_gen;
        local.bits_found_by_gen = 0;
    }
    if local.bits_found_by_min > 0 {
        stats.bits_found_by_min = stats.bits_found_by_min + local.bits_found_by_min;
        local.bits_found_by_min = 0;
    }
    if local.bits_found_by_min_rec > 0 {
        stats.bits_found_by_min_rec = stats.bits_found_by_min_rec + local.bits_found_by_min_rec;
        local.bits_found_by_min_rec = 0;
    }
    if local.bits_found_by_det > 0 {
        stats.bits_found_by_det = stats.bits_found_by_det + local.bits_found_by_det;
        local.bits_found_by_det = 0;
    }
    if local.bits_found_by_det_afl > 0 {
        stats.bits_found_by_det_afl = stats.bits_found_by_det_afl + local.bits_found_by_det_afl;
        local.bits_found_by_det_afl = 0;
    }
    if local.bits_found_by_splice > 0 {
        stats.bits_found_by_splice = stats.bits_found_by_splice + local.bits_found_by_splice;
        local.bits_found_by_splice = 0;
    }
    if local.bits_found_by_havoc > 0 {
        stats.bits_found_by_havoc = stats.bits_found_by_havoc + local.bits_found_by_havoc;
        local.bits_found_by_havoc = 0;
    }
    if local.bits_found_by_havoc_rec > 0 {
        stats.bits_found_by_havoc_rec = stats.bits_found_by_havoc_rec + local.bits_found_by_havoc_rec;
        local.bits_found_by_havoc_rec = 0;
    }
}

/// A discovery counter's value after a sequence of serialized drains, each
/// moving one drained local reading into it.
pub open spec fn counter_after_drains(init: int, drained: Seq<int>) -> int
    decreases drained.len(),
{
    if drained.len() == 0 {
        init
    } else {
        counter_after_drains(init + drained[0], drained.drop_first())
    }
}

pub open spec fn sum(s: Seq<int>) -> int
    decreases s.len(),
{
    if s.len() == 0 {
        0
    } else {
        s[0] + sum(s.drop_first())
    }
}

/// Discovery counters are drain-and-zero: after any number of serialized
/// drains the global counter holds its initial value plus the sum of every
/// drained local reading — none lost, none counted twice. Drains from
/// different workers are serialized by the global lock, so any interleaving
/// of them is such a sequence.
pub proof fn lemma_drains_accumulate(init: int, drained: Seq<int>)
    ensures
        counter_after_drains(init, drained) == init + sum(drained),
    decreases drained.len(),
{
    if drained.len() > 0 {
        lemma_drains_accumulate(init + drained[0], drained.drop_first());
    }
}

} // verus!
