use vstd::prelude::*;

verus! {

/// Immutable campaign parameters, loaded once at startup and shared
/// read-only across every thread.
#[derive(Clone)]
pub struct Config {
    /// Path to the target binary run through the execution harness.
    pub path_to_bin_target: String,
    /// Arguments handed to the target binary.
    pub arguments: Vec<String>,
    /// Directory under which outputs and checkpoints are written.
    pub path_to_workdir: String,
    /// Path to the grammar file.
    pub path_to_grammar: String,
    /// Number of fuzzing worker threads.
    pub number_of_threads: usize,
    /// Stack size of each worker thread.
    pub thread_size: usize,
    /// Pure generation without coverage feedback when set.
    pub no_feedback_mode: bool,
    /// Persist every generated input when set.
    pub dump_mode: bool,
    /// Completed deterministic-mutation passes beyond the first before an
    /// item is promoted out of the deterministic stage.
    pub number_of_deterministic_mutations: usize,
    /// Fresh seed trees generated per empty-queue pass.
    pub number_of_generate_inputs: usize,
    /// Whether the checkpoint saver thread runs.
    pub save_state: bool,
    /// Seconds between checkpoints.
    pub save_intervall: u64,
    /// Stack size of the checkpoint saver thread.
    pub save_thread_size: usize,
    /// Largest tree the grammar engine may construct.
    pub max_tree_size: usize,
}

} // verus!
