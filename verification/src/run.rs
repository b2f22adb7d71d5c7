//! The course of the demo program: which step comes next after each
//! outcome, and the exit code it ends with.

use vstd::prelude::*;

verus! {

/// How a run ended.
#[derive(PartialEq, Eq, Structural, Clone, Copy, Debug)]
pub enum RunOutcome {
    /// The run ended with this exit code.
    Exit(i32),
    /// The run failed with an error, which is reported; the exit code is 1.
    Failed,
}

/// The step a run is at.
#[derive(PartialEq, Eq, Structural, Clone, Copy, Debug)]
pub enum RunStep {
    /// Check that the Db2 engine runs as the instance user.
    CheckInstanceOwner,
    /// Load the database settings.
    LoadConfig,
    /// Open the ODBC environment and the connection.
    Connect,
    /// Open the lock file.
    OpenLockFile,
    /// Take the exclusive lock on it.
    LockExclusive,
    /// Read the status of the table the run works on.
    ReadTableStatus,
    /// The run is over.
    Finished(RunOutcome),
}

/// What the work of a step came to.
#[derive(PartialEq, Eq, Structural, Clone, Copy, Debug)]
pub enum RunEvent {
    /// The step's work succeeded.
    Succeeded,
    /// The step's work failed.
    Failed,
    /// The owner check ran; `true` when the owner is the expected user.
    OwnerChecked(bool),
    /// The table status was read, with this code.
    TableStatus(i32),
}

/// The step after `step` once its work came to `event`. An event that
/// does not belong to the step leaves the step where it is, and a
/// finished run stays finished.
pub open spec fn next_step_spec(step: RunStep, event: RunEvent) -> RunStep {
    match (step, event) {
        (RunStep::CheckInstanceOwner, RunEvent::OwnerChecked(true)) => RunStep::LoadConfig,
        (RunStep::CheckInstanceOwner, RunEvent::OwnerChecked(false)) => RunStep::Finished(
            RunOutcome::Exit(3),
        ),
        (RunStep::CheckInstanceOwner, RunEvent::Failed) => RunStep::Finished(RunOutcome::Exit(3)),
        (RunStep::LoadConfig, RunEvent::Succeeded) => RunStep::Connect,
        (RunStep::LoadConfig, RunEvent::Failed) => RunStep::Finished(RunOutcome::Failed),
        (RunStep::Connect, RunEvent::Succeeded) => RunStep::OpenLockFile,
        (RunStep::Connect, RunEvent::Failed) => RunStep::Finished(RunOutcome::Failed),
        (RunStep::OpenLockFile, RunEvent::Succeeded) => RunStep::LockExclusive,
        (RunStep::OpenLockFile, RunEvent::Failed) => RunStep::Finished(RunOutcome::Exit(1)),
        (RunStep::LockExclusive, RunEvent::Succeeded) => RunStep::ReadTableStatus,
        (RunStep::LockExclusive, RunEvent::Failed) => RunStep::Finished(RunOutcome::Exit(2)),
        (RunStep::ReadTableStatus, RunEvent::TableStatus(code)) => RunStep::Finished(
            if code == 0 {
                RunOutcome::Exit(0)
            } else {
                RunOutcome::Exit(4)
            },
        ),
        (RunStep::ReadTableStatus, RunEvent::Failed) => RunStep::Finished(RunOutcome::Failed),
        _ => step,
    }
}

/// The step after `step` once its work came to `event`: a failed or
/// negative owner check ends with exit code 3; missing settings, a failed
/// connection or a failed status read end in failure; a lock file that
/// cannot be opened ends with 1 and a lock held elsewhere with 2; a table
/// status of 0 (normal) ends with 0 and any other with 4.
pub fn next_step(step: RunStep, event: RunEvent) -> (r: RunStep)
    ensures
        r == next_step_spec(step, event),
{
    match (step, event) {
        (RunStep::CheckInstanceOwner, RunEvent::OwnerChecked(true)) => RunStep::LoadConfig,
        (RunStep::CheckInstanceOwner, RunEvent::OwnerChecked(false)) => RunStep::Finished(
            RunOutcome::Exit(3),
        ),
        (RunStep::CheckInstanceOwner, RunEvent::Failed) => RunStep::Finished(RunOutcome::Exit(3)),
        (RunStep::LoadConfig, RunEvent::Succeeded) => RunStep::Connect,
        (RunStep::LoadConfig, RunEvent::Failed) => RunStep::Finished(RunOutcome::Failed),
        (RunStep::Connect, RunEvent::Succeeded) => RunStep::OpenLockFile,
        (RunStep::Connect, RunEvent::Failed) => RunStep::Finished(RunOutcome::Failed),
        (RunStep::OpenLockFile, RunEvent::Succeeded) => RunStep::LockExclusive,
        (RunStep::OpenLockFile, RunEvent::Failed) => RunStep::Finished(RunOutcome::Exit(1)),
        (RunStep::LockExclusive, RunEvent::Succeeded) => RunStep::ReadTableStatus,
        (RunStep::LockExclusive, RunEvent::Failed) => RunStep::Finished(RunOutcome::Exit(2)),
        (RunStep::ReadTableStatus, RunEvent::TableStatus(code)) => RunStep::Finished(
            if code == 0 {
                RunOutcome::Exit(0)
            } else {
                RunOutcome::Exit(4)
            },
        ),
        (RunStep::ReadTableStatus, RunEvent::Failed) => RunStep::Finished(RunOutcome::Failed),
        _ => step,
    }
}

/// The process exit code of an outcome.
pub open spec fn exit_code_spec(outcome: RunOutcome) -> i32 {
    match outcome {
        RunOutcome::Exit(c) => c,
        RunOutcome::Failed => 1,
    }
}

/// The process exit code of an outcome: its own code, or 1 for a failure.
pub fn exit_code(outcome: RunOutcome) -> (r: i32)
    ensures
        r == exit_code_spec(outcome),
{
    match outcome {
        RunOutcome::Exit(c) => c,
        RunOutcome::Failed => 1,
    }
}

/// A run succeeds (exit code 0) only from reading a normal table status:
/// every other step and event that ends a run ends it with another code.
pub proof fn success_needs_normal_table(step: RunStep, event: RunEvent)
    requires
        !(step is Finished),
        next_step_spec(step, event) matches RunStep::Finished(o) && exit_code_spec(o) == 0,
    ensures
        step == RunStep::ReadTableStatus,
        event == RunEvent::TableStatus(0),
{
}

/// Every way a run can end has its exit code: a failed or negative owner
/// check 3, a lock file that cannot be opened 1, a lock held elsewhere 2,
/// a normal table status (0) 0, every other table status 4 (whatever the
/// code), and a failed configuration, connection or status read a failure
/// (exit code 1 with the error reported). Each step that succeeds leads to
/// the next one.
pub proof fn exit_codes_tell_the_cause(code: i32)
    ensures
        next_step_spec(RunStep::CheckInstanceOwner, RunEvent::OwnerChecked(false))
            == RunStep::Finished(RunOutcome::Exit(3)),
        next_step_spec(RunStep::CheckInstanceOwner, RunEvent::Failed) == RunStep::Finished(
            RunOutcome::Exit(3),
        ),
        next_step_spec(RunStep::CheckInstanceOwner, RunEvent::OwnerChecked(true))
            == RunStep::LoadConfig,
        next_step_spec(RunStep::LoadConfig, RunEvent::Succeeded) == RunStep::Connect,
        next_step_spec(RunStep::LoadConfig, RunEvent::Failed) == RunStep::Finished(
            RunOutcome::Failed,
        ),
        next_step_spec(RunStep::Connect, RunEvent::Succeeded) == RunStep::OpenLockFile,
        next_step_spec(RunStep::Connect, RunEvent::Failed) == RunStep::Finished(
            RunOutcome::Failed,
        ),
        next_step_spec(RunStep::OpenLockFile, RunEvent::Succeeded) == RunStep::LockExclusive,
        next_step_spec(RunStep::OpenLockFile, RunEvent::Failed) == RunStep::Finished(
            RunOutcome::Exit(1),
        ),
        next_step_spec(RunStep::LockExclusive, RunEvent::Succeeded) == RunStep::ReadTableStatus,
        next_step_spec(RunStep::LockExclusive, RunEvent::Failed) == RunStep::Finished(
            RunOutcome::Exit(2),
        ),
        next_step_spec(RunStep::ReadTableStatus, RunEvent::TableStatus(0)) == RunStep::Finished(
            RunOutcome::Exit(0),
        ),
        code != 0 ==> next_step_spec(RunStep::ReadTableStatus, RunEvent::TableStatus(code))
            == RunStep::Finished(RunOutcome::Exit(4)),
        next_step_spec(RunStep::ReadTableStatus, RunEvent::Failed) == RunStep::Finished(
            RunOutcome::Failed,
        ),
        exit_code_spec(RunOutcome::Failed) == 1,
        exit_code_spec(RunOutcome::Exit(code)) == code,
{
}

/// All table statuses other than normal end a run alike: two status codes
/// that are both not 0 lead to the same outcome, and it is not success.
pub proof fn abnormal_statuses_end_alike(a: i32, b: i32)
    requires
        a != 0,
        b != 0,
    ensures
        next_step_spec(RunStep::ReadTableStatus, RunEvent::TableStatus(a)) == next_step_spec(
            RunStep::ReadTableStatus,
            RunEvent::TableStatus(b),
        ),
        next_step_spec(RunStep::ReadTableStatus, RunEvent::TableStatus(a)) != next_step_spec(
            RunStep::ReadTableStatus,
            RunEvent::TableStatus(0),
        ),
{
}

/// A finished run stays finished, with the same outcome, whatever happens.
pub proof fn finished_is_final(outcome: RunOutcome, event: RunEvent)
    ensures
        next_step_spec(RunStep::Finished(outcome), event) == RunStep::Finished(outcome),
{
}

} // verus!
