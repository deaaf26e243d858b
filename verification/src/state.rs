use vstd::prelude::*;

use crate::config::Config;

verus! {

/// Where a test case stands in its mutation lifecycle. The cursor of each
/// positional variant is an offset into an ordered mutation-position space;
/// the first field of `Det` counts completed deterministic passes.
#[derive(Clone, Copy, PartialEq, Eq, Structural, Debug)]
pub enum InputState {
    Init(usize),
    Det(usize, usize),
    DetAFL(usize),
    Random,
}

/// A pending test case: the identity of its syntax tree (the tree itself is
/// owned by the grammar engine outside this crate) and its lifecycle stage.
#[derive(Clone, Copy, PartialEq, Eq, Structural, Debug)]
pub struct QueueItem {
    pub tree: u64,
    pub state: InputState,
}

/// One operation of the execution harness over the current tree.
#[derive(Clone, Copy, PartialEq, Eq, Structural, Debug)]
pub enum Mutation {
    Minimize,
    DeterministicTree,
    DeterministicAFL,
    Splice,
    Havoc,
    HavocRecursion,
}

/// Mathematical model of `InputState`, with unbounded cursors, used by the
/// lifecycle contracts and lemmas.
pub enum Stage {
    Init(int),
    Det(int, int),
    DetAFL(int),
    Random,
}

impl View for InputState {
    type V = Stage;

    open spec fn view(&self) -> Stage {
        match *self {
            InputState::Init(i) => Stage::Init(i as int),
            InputState::Det(cycle, i) => Stage::Det(cycle as int, i as int),
            InputState::DetAFL(i) => Stage::DetAFL(i as int),
            InputState::Random => Stage::Random,
        }
    }
}

/// Order of the lifecycle stages: `Init < Det < DetAFL < Random`.
pub open spec fn stage_rank(s: Stage) -> int {
    match s {
        Stage::Init(_) => 0,
        Stage::Det(_, _) => 1,
        Stage::DetAFL(_) => 2,
        Stage::Random => 3,
    }
}

/// The lifecycle transition: where one windowed step leaves an item, given
/// whether the primary operation reported its stage complete.
pub open spec fn next_stage(s: Stage, primary_complete: bool, det_cycles: int) -> Stage {
    match s {
        Stage::Init(i) => if primary_complete {
            Stage::Det(0, 0)
        } else {
            Stage::Init(i + 200)
        },
        Stage::Det(cycle, i) => if primary_complete {
            if cycle == det_cycles {
                Stage::DetAFL(0)
            } else {
                Stage::Det(cycle + 1, 0)
            }
        } else {
            Stage::Det(cycle, i + 1)
        },
        Stage::DetAFL(i) => if primary_complete {
            Stage::Random
        } else {
            Stage::DetAFL(i + 1)
        },
        Stage::Random => Stage::Random,
    }
}

/// The exploratory side passes run on every step of a stage, regardless of
/// whether the primary operation reported completion: none while minimizing,
/// afterwards splice, havoc and havoc-recursion, exactly once each.
pub open spec fn side_passes(s: Stage) -> Seq<Mutation> {
    match s {
        Stage::Init(_) => seq![],
        _ => seq![Mutation::Splice, Mutation::Havoc, Mutation::HavocRecursion],
    }
}

/// The primary operation of the current stage and its position window.
pub open spec fn primary_window(s: InputState) -> Option<(Mutation, usize, usize)> {
    match s {
        InputState::Init(i) => Some((Mutation::Minimize, i, (i + 200) as usize)),
        InputState::Det(_, i) => Some((Mutation::DeterministicTree, i, (i + 1) as usize)),
        InputState::DetAFL(i) => Some((Mutation::DeterministicAFL, i, (i + 1) as usize)),
        InputState::Random => None,
    }
}

/// Machine bounds on the cursors: the next window's end must fit in `usize`.
pub open spec fn cursor_fits(s: InputState) -> bool {
    match s {
        InputState::Init(i) => i + 200 <= usize::MAX,
        InputState::Det(_, i) => i < usize::MAX,
        InputState::DetAFL(i) => i < usize::MAX,
        InputState::Random => true,
    }
}

/// Well-formedness of a reachable stage under the configured number of
/// deterministic cycles: cursors leave room for the next window and the
/// cycle counter never exceeds the configured bound.
pub open spec fn stage_wf(s: InputState, det_cycles: usize) -> bool {
    &&& cursor_fits(s)
    &&& match s {
        InputState::Det(cycle, _) => cycle <= det_cycles,
        _ => true,
    }
}

/// The primary operation the worker must run before advancing `inp`, with
/// its half-open position window, or `None` in the terminal stage.
pub fn mutation_window(inp: &QueueItem) -> (r: Option<(Mutation, usize, usize)>)
    requires
        cursor_fits(inp.state),
    ensures
        r == primary_window(inp.state),
{
    match inp.state {
        InputState::Init(start_index) => Some((Mutation::Minimize, start_index, start_index + 200)),
        InputState::Det(_, start_index) => {
            Some((Mutation::DeterministicTree, start_index, start_index + 1))
        }
        InputState::DetAFL(start_index) => {
            Some((Mutation::DeterministicAFL, start_index, start_index + 1))
        }
        InputState::Random => None,
    }
}

/// Advance `inp` by exactly one windowed mutation step, after its primary
/// operation (from [`mutation_window`]) ran without a harness error and
/// reported `primary_complete`. Returns the exploratory side passes the
/// worker must still run against the tree; their outcome does not affect
/// the stage. On a harness error the worker never calls this function: the
/// step is abandoned and the stage left unchanged.
pub fn process_input(inp: &mut QueueItem, primary_complete: bool, config: &Config) -> (side: Vec<
    Mutation,
>)
    requires
        stage_wf(old(inp).state, config.number_of_deterministic_mutations),
    ensures
        final(inp).tree == old(inp).tree,
        final(inp).state@ == next_stage(
            old(inp).state@,
            primary_complete,
            config.number_of_deterministic_mutations as int,
        ),
        side@ == side_passes(old(inp).state@),
        stage_rank(final(inp).state@) >= stage_rank(old(inp).state@),
{
    let ghost entry_state = inp.state;
    let mut side: Vec<Mutation> = Vec::new();
    match inp.state {
        InputState::Init(start_index) => {
            let end_index = start_index + 200;
            if primary_complete {
                inp.state = InputState::Det(0, 0);
            } else {
                inp.state = InputState::Init(end_index);
            }
        }
        InputState::Det(cycle, start_index) => {
            let end_index = start_index + 1;
            if primary_complete {
                if cycle == config.number_of_deterministic_mutations {
                    inp.state = InputState::DetAFL(0);
                } else {
                    inp.state = InputState::Det(cycle + 1, 0);
                }
            } else {
                inp.state = InputState::Det(cycle, end_index);
            }
            side.push(Mutation::Splice);
            side.push(Mutation::Havoc);
            side.push(Mutation::HavocRecursion);
        }
        InputState::DetAFL(start_index) => {
            let end_index = start_index + 1;
            if primary_complete {
                inp.state = InputState::Random;
            } else {
                inp.state = InputState::DetAFL(end_index);
            }
            side.push(Mutation::Splice);
            side.push(Mutation::Havoc);
            side.push(Mutation::HavocRecursion);
        }
        InputState::Random => {
            side.push(Mutation::Splice);
            side.push(Mutation::Havoc);
            side.push(Mutation::HavocRecursion);
        }
    }
    proof {
        assert(side@ =~= side_passes(entry_state@));
    }
    side
}

/// The lifecycle never regresses: one step's stage rank is at least the
/// rank before it, for every outcome of the primary operation.
pub proof fn lemma_stage_monotonic(s: Stage, primary_complete: bool, det_cycles: int)
    ensures
        stage_rank(next_stage(s, primary_complete, det_cycles)) >= stage_rank(s),
{
}

/// How many of a sequence of step outcomes reported the stage complete.
pub open spec fn count_complete(outcomes: Seq<bool>) -> int
    decreases outcomes.len(),
{
    if outcomes.len() == 0 {
        0
    } else {
        (if outcomes[0] {
            1int
        } else {
            0int
        }) + count_complete(outcomes.drop_first())
    }
}

/// The stage reached after a sequence of steps with the given outcomes.
pub open spec fn run_stages(s: Stage, outcomes: Seq<bool>, det_cycles: int) -> Stage
    decreases outcomes.len(),
{
    if outcomes.len() == 0 {
        s
    } else {
        run_stages(next_stage(s, outcomes[0], det_cycles), outcomes.drop_first(), det_cycles)
    }
}

pub proof fn lemma_count_complete_bounds(outcomes: Seq<bool>)
    ensures
        0 <= count_complete(outcomes) <= outcomes.len(),
    decreases outcomes.len(),
{
    if outcomes.len() > 0 {
        lemma_count_complete_bounds(outcomes.drop_first());
    }
}

/// Whether `s` is the deterministic stage with cycle counter `cycle`.
pub open spec fn is_det_at_cycle(s: Stage, cycle: int) -> bool {
    match s {
        Stage::Det(c, _) => c == cycle,
        _ => false,
    }
}

/// While the completed passes observed since cycle `cycle` do not exceed the
/// configured bound, the item stays in the deterministic stage and its cycle
/// counter advances by exactly the number of completed passes: it is never
/// promoted early.
pub proof fn lemma_det_cycles(cycle: int, i: int, outcomes: Seq<bool>, det_cycles: int)
    requires
        0 <= cycle,
        cycle + count_complete(outcomes) <= det_cycles,
    ensures
        is_det_at_cycle(
            run_stages(Stage::Det(cycle, i), outcomes, det_cycles),
            cycle + count_complete(outcomes),
        ),
    decreases outcomes.len(),
{
    lemma_count_complete_bounds(outcomes);
    if outcomes.len() == 0 {
        assert(run_stages(Stage::Det(cycle, i), outcomes, det_cycles) == Stage::Det(cycle, i));
    } else {
        lemma_count_complete_bounds(outcomes.drop_first());
        if outcomes[0] {
            lemma_det_cycles(cycle + 1, 0, outcomes.drop_first(), det_cycles);
        } else {
            lemma_det_cycles(cycle, i + 1, outcomes.drop_first(), det_cycles);
        }
    }
}

/// The deterministic stage performs exactly `det_cycles + 1` completed
/// passes before promotion: after outcomes holding `det_cycles` completed
/// passes an item that entered at `Det(0, _)` is still deterministic, with
/// its cycle counter at the bound, and the next completed pass — and only a
/// completed pass — promotes it to `DetAFL(0)`.
pub proof fn lemma_det_promotion(i: int, outcomes: Seq<bool>, det_cycles: int)
    requires
        0 <= det_cycles,
        count_complete(outcomes) == det_cycles,
    ensures
        is_det_at_cycle(run_stages(Stage::Init(i), seq![true] + outcomes, det_cycles), det_cycles),
        forall|j: int| next_stage(Stage::Det(det_cycles, j), true, det_cycles) == Stage::DetAFL(0),
        forall|j: int|
            stage_rank(#[trigger] next_stage(Stage::Det(det_cycles, j), false, det_cycles)) == 1,
{
    let entry = seq![true] + outcomes;
    assert(entry[0]);
    assert(entry.drop_first() =~= outcomes);
    assert(next_stage(Stage::Init(i), true, det_cycles) == Stage::Det(0, 0));
    lemma_det_cycles(0, 0, outcomes, det_cycles);
}

} // verus!
