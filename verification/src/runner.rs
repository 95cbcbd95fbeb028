//! The pipeline runner's state machine. The runner decides, stage by stage,
//! where a stage's standard input comes from and where its standard output
//! goes, and tracks which spawned process's piped output is live and which
//! process the shell owes its one final wait. Spawning itself is outside
//! work: the surrounding read-eval loop performs each decided action and
//! reports the outcome back through `record`.
//!
//! Processes are identified by their spawn ordinal within the line (the
//! first successfully spawned process is 0). At most one process's piped
//! output is live at any time: it is consumed by the next external stage or
//! replaced, never duplicated.

use vstd::prelude::*;

use crate::dispatch::Builtin;
use crate::dispatch::builtin_of;
use crate::dispatch::classify;
use crate::stage::Stage;

verus! {

/// Where an external stage's standard input comes from: the shell's own
/// inherited stdin, or the piped output of the previous external stage.
#[derive(Clone, Copy, Debug, PartialEq, Eq, Structural)]
pub enum StdinSource {
    Inherited,
    FromPipe,
}

/// Where an external stage's standard output goes: inherited to the shell's
/// own stdout (last stage), or a fresh pipe for the next stage to consume.
#[derive(Clone, Copy, Debug, PartialEq, Eq, Structural)]
pub enum StdoutSink {
    Inherited,
    Piped,
}

/// The decision for one stage: run a builtin in-process on the ambient
/// streams, or spawn the stage's program with the given stream wiring.
#[derive(Clone, Copy, Debug, PartialEq, Eq, Structural)]
pub enum StagePlan {
    RunBuiltin(Builtin),
    Spawn { stdin: StdinSource, stdout: StdoutSink },
}

/// What became of one stage: the builtin ran, a process was spawned (with or
/// without a piped output to hand on), or the spawn failed.
#[derive(Clone, Copy, Debug, PartialEq, Eq, Structural)]
pub enum StageOutcome {
    BuiltinCompleted,
    ProcessSpawned { piped: bool },
    SpawnFailed,
}

/// The runner's state across the stages of one pipeline: how many processes
/// were spawned so far, which of them (if any) left a piped output that the
/// next external stage will consume, and which of them (if any) the shell
/// owes the final wait.
#[derive(Clone, Copy, Debug, PartialEq, Eq)]
pub struct Runner {
    pub spawned: u64,
    pub piped_from: Option<u64>,
    pub wait_on: Option<u64>,
}

/// The ordinal the next spawned process receives. The count saturates at the
/// largest representable ordinal, unreachable in any real run.
pub open spec fn next_count(spawned: u64) -> u64 {
    if spawned < u64::MAX {
        (spawned + 1) as u64
    } else {
        spawned
    }
}

impl Runner {
    /// The state at the start of every pipeline: nothing spawned, no piped
    /// output live, no wait owed.
    pub open spec fn initial() -> Runner {
        Runner { spawned: 0, piped_from: None, wait_on: None }
    }

    /// The state after one stage's outcome. A builtin leaves the piped
    /// output alone but is itself nothing to wait for; a spawned process
    /// takes the next ordinal, leaves its own piped output (if it was given
    /// one, consuming its predecessor's in the act of spawning) and owes the
    /// wait; a failed spawn clears the piped output, so that no later stage
    /// is wired to a process that does not exist, and owes nothing.
    pub open spec fn step(self, outcome: StageOutcome) -> Runner {
        match outcome {
            StageOutcome::BuiltinCompleted => Runner { wait_on: None, ..self },
            StageOutcome::ProcessSpawned { piped } => Runner {
                spawned: next_count(self.spawned),
                piped_from: if piped {
                    Some(self.spawned)
                } else {
                    None
                },
                wait_on: Some(self.spawned),
            },
            StageOutcome::SpawnFailed => Runner { piped_from: None, wait_on: None, ..self },
        }
    }

    /// The state after a whole sequence of outcomes, first to last.
    pub open spec fn run(self, outcomes: Seq<StageOutcome>) -> Runner
        decreases outcomes.len(),
    {
        if outcomes.len() == 0 {
            self
        } else {
            self.step(outcomes[0]).run(outcomes.drop_first())
        }
    }

    pub fn new() -> (r: Runner)
        ensures
            r == Runner::initial(),
    {
        Runner { spawned: 0, piped_from: None, wait_on: None }
    }

    /// Decides one stage: a builtin runs in-process on the ambient streams;
    /// an external program reads the previous stage's piped output when one
    /// is live (and inherits stdin otherwise), and writes to a fresh pipe
    /// unless it is the pipeline's last stage (then it inherits stdout).
    pub fn plan_stage(&self, stage: &Stage, is_last: bool) -> (p: StagePlan)
        ensures
            p == plan_spec(stage@.program, self.piped_from is Some, is_last),
    {
        match classify(stage.program.as_str()) {
            Some(b) => StagePlan::RunBuiltin(b),
            None => StagePlan::Spawn {
                stdin: if self.piped_from.is_some() {
                    StdinSource::FromPipe
                } else {
                    StdinSource::Inherited
                },
                stdout: if is_last {
                    StdoutSink::Inherited
                } else {
                    StdoutSink::Piped
                },
            },
        }
    }

    /// Folds one stage's outcome into the runner's state.
    pub fn record(&mut self, outcome: StageOutcome)
        ensures
            *final(self) == old(self).step(outcome),
    {
        match outcome {
            StageOutcome::BuiltinCompleted => {
                self.wait_on = None;
            },
            StageOutcome::ProcessSpawned { piped } => {
                let id = self.spawned;
                if self.spawned < u64::MAX {
                    self.spawned = self.spawned + 1;
                }
                self.piped_from = if piped {
                    Some(id)
                } else {
                    None
                };
                self.wait_on = Some(id);
            },
            StageOutcome::SpawnFailed => {
                self.piped_from = None;
                self.wait_on = None;
            },
        }
    }

    /// Whether, after the last stage, the shell must block on the pipeline's
    /// terminal process: true exactly when the last outcome was a spawned
    /// process.
    pub fn must_wait(&self) -> (b: bool)
        ensures
            b == (self.wait_on is Some),
    {
        self.wait_on.is_some()
    }

    /// Which spawned process the shell blocks on, by spawn ordinal: the most
    /// recently spawned one, and only when the last outcome was a spawn.
    pub fn wait_target(&self) -> (t: Option<u64>)
        ensures
            t == self.wait_on,
    {
        self.wait_on
    }
}

/// The decision for a stage, as a function of its program name, of whether a
/// piped output is live, and of whether the stage is the pipeline's last.
pub open spec fn plan_spec(program: Seq<char>, has_piped_output: bool, is_last: bool) -> StagePlan {
    match builtin_of(program) {
        Some(b) => StagePlan::RunBuiltin(b),
        None => StagePlan::Spawn {
            stdin: if has_piped_output {
                StdinSource::FromPipe
            } else {
                StdinSource::Inherited
            },
            stdout: if is_last {
                StdoutSink::Inherited
            } else {
                StdoutSink::Piped
            },
        },
    }
}

/// A pipeline with no stages leaves the runner exactly as it started, with
/// no piped output live and no wait owed: the runner performs no action.
pub proof fn lemma_no_stages_no_action(r: Runner)
    ensures
        r.run(Seq::empty()) == r,
        Runner::initial().wait_on is None,
        Runner::initial().piped_from is None,
{
}

/// Running a builtin is idempotent for the runner's state: a second builtin
/// outcome in a row (say, `pwd` twice with no `cd` between) leaves the
/// runner exactly where the first left it. The repeated builtin therefore
/// runs from the same shell state and prints the same text, as long as the
/// ambient working directory was not changed in between.
pub proof fn lemma_builtin_outcome_idempotent(r: Runner)
    ensures
        r.step(StageOutcome::BuiltinCompleted).step(StageOutcome::BuiltinCompleted) == r.step(
            StageOutcome::BuiltinCompleted,
        ),
{
}

/// After a failed spawn nothing is owed and nothing is live: the next stage
/// plans as if no pipeline context existed, and a failed final stage leaves
/// nothing to wait on.
pub proof fn lemma_spawn_failure_clears(r: Runner)
    ensures
        r.step(StageOutcome::SpawnFailed).piped_from is None,
        r.step(StageOutcome::SpawnFailed).wait_on is None,
{
}

/// Whatever came before, a successful spawn owes the wait for exactly the
/// process it created, and the only piped output that can be live afterwards
/// is that same process's: the predecessor's handle was moved into the new
/// process's stdin or dropped, never kept alongside.
pub proof fn lemma_spawn_owns_wait_and_pipe(r: Runner, piped: bool)
    ensures
        r.step(StageOutcome::ProcessSpawned { piped }).wait_on == Some(r.spawned),
        r.step(StageOutcome::ProcessSpawned { piped }).piped_from == if piped {
            Some(r.spawned)
        } else {
            None::<u64>
        },
{
}

} // verus!
