//! Decoding a collaborator's outcome, and planning an invocation.
//!
//! The surrounding application launches the collaborator script and hands
//! back what happened: either the process ran to completion, with an exit
//! status and its two output streams, or it could not be launched at all.
//! This module fixes exactly what each outcome decodes to, and bundles the
//! script name and argument vector an invocation must be launched with.

use vstd::prelude::*;
use vstd::string::StringExecFns;
use crate::op::{error_prefix_spec, script_name_spec, spawn_prefix_spec, Operation};
use crate::request::{arg_views, encode_args, encoded_args, operation_of, Request};
use crate::text::{trim, trimmed};

verus! {

/// What became of one attempt to run a collaborator script.
#[derive(Debug)]
pub enum SpawnOutcome {
    /// The process was launched and ran to completion.
    Completed { exit_ok: bool, stdout: String, stderr: String },
    /// The process could not be launched; the message describes why.
    SpawnFailed { message: String },
}

/// The category of a failed invocation: the two are reported through the
/// same error shape but stay distinguishable for diagnostics.
#[derive(Clone, Copy, PartialEq, Eq, Structural, Debug)]
pub enum FailureKind {
    /// The collaborator could not be launched at all.
    Spawn,
    /// The collaborator ran and exited with a failure status.
    Execution,
}

/// A failed invocation: its category and its descriptive message.
#[derive(Debug)]
pub struct BridgeFailure {
    pub kind: FailureKind,
    pub message: String,
}

/// The payload a successful run decodes to: its standard output with
/// surrounding whitespace removed.
pub open spec fn success_text(stdout: Seq<char>) -> Seq<char> {
    trimmed(stdout)
}

/// The message a run of `op` that exited with a failure status decodes to:
/// the operation's error prefix, then the process's standard error.
pub open spec fn execution_failure_text(op: Operation, stderr: Seq<char>) -> Seq<char> {
    error_prefix_spec(op) + stderr
}

/// The message a launch failure of `op` decodes to: the operation's spawn
/// prefix, then the launch error's description.
pub open spec fn spawn_failure_text(op: Operation, message: Seq<char>) -> Seq<char> {
    spawn_prefix_spec(op) + message
}

/// What an outcome of running `op` decodes to: the trimmed payload on
/// success, otherwise the failure's category and message.
pub open spec fn decoded(op: Operation, outcome: SpawnOutcome) -> Result<
    Seq<char>,
    (FailureKind, Seq<char>),
> {
    match outcome {
        SpawnOutcome::Completed { exit_ok, stdout, stderr } => if exit_ok {
            Result::Ok(success_text(stdout@))
        } else {
            Result::Err((FailureKind::Execution, execution_failure_text(op, stderr@)))
        },
        SpawnOutcome::SpawnFailed { message } => Result::Err(
            (FailureKind::Spawn, spawn_failure_text(op, message@)),
        ),
    }
}

/// For every operation, a collaborator that exits successfully yields
/// exactly its standard output with surrounding whitespace removed, and
/// one that exits with a failure status yields an execution failure whose
/// message is the operation's error prefix followed by the standard error.
pub proof fn lemma_decoded_exact(op: Operation, stdout: String, stderr: String)
    ensures
        decoded(op, (SpawnOutcome::Completed { exit_ok: true, stdout, stderr })) == Result::<
            Seq<char>,
            (FailureKind, Seq<char>),
        >::Ok(trimmed(stdout@)),
        decoded(op, (SpawnOutcome::Completed { exit_ok: false, stdout, stderr })) == Result::<
            Seq<char>,
            (FailureKind, Seq<char>),
        >::Err((FailureKind::Execution, error_prefix_spec(op) + stderr@)),
{
}

/// A failed run's message carries the collaborator's standard error in
/// full: past the operation's prefix, the message is exactly the standard
/// error.
pub proof fn lemma_failure_carries_stderr(op: Operation, stderr: Seq<char>)
    ensures
        execution_failure_text(op, stderr).len() == error_prefix_spec(op).len() + stderr.len(),
        execution_failure_text(op, stderr).subrange(
            error_prefix_spec(op).len() as int,
            execution_failure_text(op, stderr).len() as int,
        ) == stderr,
{
    assert(execution_failure_text(op, stderr).subrange(
        error_prefix_spec(op).len() as int,
        execution_failure_text(op, stderr).len() as int,
    ) =~= stderr);
}

/// A launch failure and an execution failure decode to distinct
/// categories, for every operation and whatever the processes wrote.
pub proof fn lemma_failure_categories_distinct(
    op: Operation,
    stdout: String,
    stderr: String,
    message: String,
)
    ensures
        decoded(op, (SpawnOutcome::SpawnFailed { message })) matches Result::Err(f)
            && f.0 == FailureKind::Spawn,
        decoded(op, (SpawnOutcome::Completed { exit_ok: false, stdout, stderr })) matches
            Result::Err(f) && f.0 == FailureKind::Execution,
        FailureKind::Spawn != FailureKind::Execution,
{
}

/// Decodes the outcome of running `op` into the operation's result: the
/// trimmed standard output if the process exited successfully, otherwise a
/// failure of the matching category.
pub fn decode_outcome(op: Operation, outcome: &SpawnOutcome) -> (r: Result<String, BridgeFailure>)
    ensures
        r matches Result::Ok(payload) ==> decoded(op, *outcome) == Result::<
            Seq<char>,
            (FailureKind, Seq<char>),
        >::Ok(payload@),
        r matches Result::Err(failure) ==> decoded(op, *outcome) == Result::<
            Seq<char>,
            (FailureKind, Seq<char>),
        >::Err((failure.kind, failure.message@)),
        r is Ok <==> decoded(op, *outcome) is Ok,
{
    match outcome {
        SpawnOutcome::Completed { exit_ok, stdout, stderr } => {
            if *exit_ok {
                Result::Ok(trim(stdout.as_str()))
            } else {
                let mut message = op.error_prefix().to_owned();
                message.append(stderr.as_str());
                Result::Err(BridgeFailure { kind: FailureKind::Execution, message })
            }
        },
        SpawnOutcome::SpawnFailed { message: cause } => {
            let mut message = op.spawn_prefix().to_owned();
            message.append(cause.as_str());
            Result::Err(BridgeFailure { kind: FailureKind::Spawn, message })
        },
    }
}

/// Everything an invocation must be launched with: the collaborator
/// script's file name and the encoded positional arguments, in order.
pub struct CommandPlan {
    pub script: String,
    pub args: Vec<String>,
}

/// Plans the invocation of a request: the script of its operation,
/// followed by the request's encoded argument vector.
pub fn plan_invocation(req: &Request) -> (plan: CommandPlan)
    ensures
        plan.script@ == script_name_spec(operation_of(*req)),
        arg_views(plan.args@) == encoded_args(*req),
{
    let op = req.operation();
    CommandPlan { script: op.script_name().to_owned(), args: encode_args(req) }
}

} // verus!
