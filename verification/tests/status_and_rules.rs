use gramophone::queue::Queue;
use gramophone::rules::{build_rule_list, synthesize_start_rule};
use gramophone::shared_state::GlobalSharedState;
use gramophone::state::{InputState, QueueItem};
use gramophone::status::{elapsed_run_time, reporter_starved, snapshot, CORPUS_WATCHDOG_SECS};

#[test]
fn run_time_breakdown_is_exact() {
    let t = elapsed_run_time(0);
    assert_eq!((t.days, t.hours, t.minutes, t.seconds), (0, 0, 0, 0));
    // 1 day, 1 hour, 1 minute, 1 second.
    let t = elapsed_run_time(90061);
    assert_eq!((t.days, t.hours, t.minutes, t.seconds), (1, 1, 1, 1));
    let t = elapsed_run_time(86399);
    assert_eq!((t.days, t.hours, t.minutes, t.seconds), (0, 23, 59, 59));
    let t = elapsed_run_time(86400);
    assert_eq!((t.days, t.hours, t.minutes, t.seconds), (1, 0, 0, 0));
    let t = elapsed_run_time(59);
    assert_eq!((t.days, t.hours, t.minutes, t.seconds), (0, 0, 0, 59));
}

#[test]
fn watchdog_faults_after_thirty_continuous_seconds() {
    assert_eq!(CORPUS_WATCHDOG_SECS, 30);
    // A simulated slow writer holding the busy flag for 31 seconds starves
    // the reporting path deterministically.
    assert!(reporter_starved(true, 31));
    assert!(reporter_starved(true, 30));
    assert!(!reporter_starved(true, 29));
    // A clear flag never faults, however long ago it was last seen set.
    assert!(!reporter_starved(false, 1000));
    assert!(!reporter_starved(false, 0));
}

#[test]
fn snapshot_copies_counters_under_lock() {
    let mut stats = GlobalSharedState::new(String::from("./work/"));
    stats.execution_count = 12;
    stats.average_executions_per_sec = 3;
    stats.bits_found_by_splice = 4;
    stats.total_found_sig = 2;
    stats.last_found_sig = String::from("[2020-01-01] 00:00:00");
    stats.state_saved = String::from("[2020-01-02] 00:00:00");
    let mut q = Queue::new();
    q.add(QueueItem { tree: 1, state: InputState::Init(0) });
    stats.queue = q;
    let s = snapshot(&stats);
    assert_eq!(s.execution_count, 12);
    assert_eq!(s.average_executions_per_sec, 3);
    assert_eq!(s.queue_len, 1);
    assert_eq!(s.bits_found_by_splice, 4);
    assert_eq!(s.total_found_sig, 2);
    assert_eq!(s.last_found_sig, "[2020-01-01] 00:00:00");
    assert_eq!(s.state_saved, "[2020-01-02] 00:00:00");
    // The shared state itself is untouched.
    assert_eq!(stats.execution_count, 12);
    assert_eq!(stats.queue.len(), 1);
}

#[test]
fn start_rule_wraps_root_in_grouping() {
    assert_eq!(synthesize_start_rule("EXPR"), "{EXPR}");
    assert_eq!(synthesize_start_rule(""), "{}");
}

#[test]
fn rule_list_prepends_synthetic_start() {
    let declared = vec![
        (String::from("EXPR"), String::from("{TERM}+{TERM}")),
        (String::from("TERM"), String::from("1")),
    ];
    let rules = build_rule_list(&declared);
    assert_eq!(rules.len(), 3);
    assert_eq!(rules[0].0, "START");
    assert_eq!(rules[0].1, "{EXPR}");
    assert_eq!(rules[1].0, "EXPR");
    assert_eq!(rules[1].1, "{TERM}+{TERM}");
    assert_eq!(rules[2].0, "TERM");
    assert_eq!(rules[2].1, "1");
}
