//! Decisions of the command runner: the configured commands run one after
//! another, and the first one that cannot be launched or exits unsuccessfully
//! stops the sequence. Launching is the caller's work; after each command
//! this module decides what comes next.

use vstd::prelude::*;

use crate::pipeline::PipelineError;

verus! {

/// How a launched command ended, as the caller observed it.
#[derive(Clone, Debug)]
pub enum CommandOutcome {
    /// It ran and exited successfully.
    Succeeded,
    /// It ran and exited unsuccessfully; the text describes the exit status.
    Exited(String),
    /// It could not be launched; the text describes why.
    LaunchFailed(String),
}

impl CommandOutcome {
    pub open spec fn is_success(&self) -> bool {
        self is Succeeded
    }

    /// The description of an unsuccessful outcome.
    pub open spec fn cause(&self) -> Seq<char> {
        match self {
            CommandOutcome::Succeeded => Seq::empty(),
            CommandOutcome::Exited(s) => s@,
            CommandOutcome::LaunchFailed(s) => s@,
        }
    }
}

/// What the runner does next.
#[derive(Clone, Debug)]
pub enum CommandStep {
    /// Launch the command at this index and wait for it.
    Launch(usize),
    /// Every command succeeded.
    Finished,
    /// The command at `index` failed; the sequence stops.
    Failed { index: usize, error: PipelineError },
}

/// The runner's moves, without the error details.
pub enum RunnerMove {
    Launch(nat),
    Finish,
    Abort(nat),
}

impl CommandStep {
    pub open spec fn move_of(&self) -> RunnerMove {
        match self {
            CommandStep::Launch(i) => RunnerMove::Launch(*i as nat),
            CommandStep::Finished => RunnerMove::Finish,
            CommandStep::Failed { index, .. } => RunnerMove::Abort(*index as nat),
        }
    }
}

/// The first move for `len` commands: launch the first, or finish at once.
pub open spec fn start_move(len: nat) -> RunnerMove {
    if len == 0 {
        RunnerMove::Finish
    } else {
        RunnerMove::Launch(0)
    }
}

/// The move after the command at `index`, of `len`, ended (`ok` on success).
pub open spec fn after_command(len: nat, index: nat, ok: bool) -> RunnerMove {
    if !ok {
        RunnerMove::Abort(index)
    } else if index + 1 < len {
        RunnerMove::Launch(index + 1)
    } else {
        RunnerMove::Finish
    }
}

/// The indices launched from `index` on, when `ok[i]` tells whether the
/// command at `i` succeeds, and the move the runner ends with.
pub open spec fn run_from(len: nat, ok: Seq<bool>, index: nat) -> (Seq<nat>, RunnerMove)
    decreases len - index,
{
    if index >= len {
        (Seq::empty(), RunnerMove::Finish)
    } else {
        match after_command(len, index, ok[index as int]) {
            RunnerMove::Launch(next) => {
                if next == index + 1 {
                    let (rest, end) = run_from(len, ok, next);
                    (seq![index] + rest, end)
                } else {
                    (seq![index], RunnerMove::Finish)
                }
            },
            end => (seq![index], end),
        }
    }
}

/// The indices launched for `len` commands and the move the runner ends with.
pub open spec fn run_commands_trace(len: nat, ok: Seq<bool>) -> (Seq<nat>, RunnerMove) {
    match start_move(len) {
        RunnerMove::Launch(first) => run_from(len, ok, first),
        end => (Seq::empty(), end),
    }
}

/// The first step for `commands`: launch the first, or finish when there are none.
pub fn first_command_step(commands: &Vec<String>) -> (r: CommandStep)
    ensures
        r.move_of() == start_move(commands@.len()),
{
    if commands.len() == 0 {
        CommandStep::Finished
    } else {
        CommandStep::Launch(0)
    }
}

/// Decides the next step after the command at `index` ended with `outcome`.
/// A failure is reported as `CommandFailed` naming that command.
pub fn next_command_step(commands: &Vec<String>, index: usize, outcome: CommandOutcome) -> (r:
    CommandStep)
    requires
        index < commands@.len(),
    ensures
        r.move_of() == after_command(commands@.len(), index as nat, outcome.is_success()),
        r matches CommandStep::Failed { error, .. } ==> (error matches PipelineError::CommandFailed {
            command,
            cause,
        } && command@ == commands@[index as int]@ && cause@ == outcome.cause()),
{
    match outcome {
        CommandOutcome::Succeeded => {
            if index < commands.len() - 1 {
                CommandStep::Launch(index + 1)
            } else {
                CommandStep::Finished
            }
        },
        CommandOutcome::Exited(cause) => CommandStep::Failed {
            index,
            error: PipelineError::CommandFailed { command: commands[index].clone(), cause },
        },
        CommandOutcome::LaunchFailed(cause) => CommandStep::Failed {
            index,
            error: PipelineError::CommandFailed { command: commands[index].clone(), cause },
        },
    }
}

proof fn lemma_run_from_failure(len: nat, ok: Seq<bool>, k: nat, i: nat)
    requires
        i <= k < len,
        k < ok.len(),
        forall|j: int| 0 <= j < k ==> ok[j],
        !ok[k as int],
    ensures
        run_from(len, ok, i) == (Seq::new((k + 1 - i) as nat, |j: int| (i + j) as nat), RunnerMove::Abort(k)),
    decreases k - i,
{
    if i < k {
        lemma_run_from_failure(len, ok, k, i + 1);
        let (rest, end) = run_from(len, ok, i + 1);
        assert(seq![i] + rest =~= Seq::new((k + 1 - i) as nat, |j: int| (i + j) as nat));
    } else {
        assert(seq![i] =~= Seq::new((k + 1 - i) as nat, |j: int| (i + j) as nat));
    }
}

proof fn lemma_run_from_success(len: nat, ok: Seq<bool>, i: nat)
    requires
        i < len,
        len <= ok.len(),
        forall|j: int| 0 <= j < len ==> ok[j],
    ensures
        run_from(len, ok, i) == (Seq::new((len - i) as nat, |j: int| (i + j) as nat), RunnerMove::Finish),
    decreases len - i,
{
    if i + 1 < len {
        lemma_run_from_success(len, ok, i + 1);
        let (rest, end) = run_from(len, ok, i + 1);
        assert(seq![i] + rest =~= Seq::new((len - i) as nat, |j: int| (i + j) as nat));
    } else {
        assert(seq![i] =~= Seq::new((len - i) as nat, |j: int| (i + j) as nat));
    }
}

/// When the commands before index `k` succeed and the one at `k` fails, the
/// runner launches exactly the commands `0..=k`, in order, never one after
/// `k`, and stops at `k`.
pub proof fn lemma_runner_stops_at_first_failure(len: nat, ok: Seq<bool>, k: nat)
    requires
        k < len,
        k < ok.len(),
        forall|j: int| 0 <= j < k ==> ok[j],
        !ok[k as int],
    ensures
        run_commands_trace(len, ok) == (Seq::new(k + 1, |j: int| j as nat), RunnerMove::Abort(k)),
{
    lemma_run_from_failure(len, ok, k, 0);
    assert(Seq::new((k + 1 - 0) as nat, |j: int| (0 + j) as nat) =~= Seq::new(k + 1, |j: int| j as nat));
}

/// When every command succeeds, the runner launches each once, in order, and
/// finishes; with no commands it launches none.
pub proof fn lemma_runner_runs_all(len: nat, ok: Seq<bool>)
    requires
        len <= ok.len(),
        forall|j: int| 0 <= j < len ==> ok[j],
    ensures
        run_commands_trace(len, ok) == (Seq::new(len, |j: int| j as nat), RunnerMove::Finish),
{
    if len > 0 {
        lemma_run_from_success(len, ok, 0);
        assert(Seq::new((len - 0) as nat, |j: int| (0 + j) as nat) =~= Seq::new(len, |j: int| j as nat));
    } else {
        assert(Seq::<nat>::empty() =~= Seq::new(len, |j: int| j as nat));
    }
}

} // verus!
