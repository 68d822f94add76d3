use vstd::prelude::*;

verus! {

/// Whether a phase runs with the process's privileges dropped.
#[derive(Debug, Clone, Copy, PartialEq, Eq, Structural)]
pub enum Privilege {
    Drop,
    NoDrop,
}

/// One unit of outside work of a job run, in the order in which they come.
#[derive(Debug, Clone, Copy, PartialEq, Eq, Structural)]
pub enum JobStep {
    /// Bootstrapping: create the workspace skeleton (create if absent).
    BuildWorkspace,
    /// Bootstrapping: clone and merge the resolved reference.
    SetupRepo,
    /// Configuring: remove the build cookbook of an earlier run.
    PurgeBuildCookbook,
    /// Configuring: write the job configuration for the change.
    SetupChef,
    /// Executing: the implicit `default` phase.
    RunDefaultPhase,
    /// Executing: the phases that were asked for.
    RunPhases,
}

/// Where a job run stands.
#[derive(Debug, Clone, Copy, PartialEq, Eq, Structural)]
pub enum JobState {
    Running(JobStep),
    Done,
    Failed,
}

/// The policy for the requested phases: drop only a privileged process.
pub open spec fn privilege_policy_spec(privileged: bool) -> Privilege {
    if privileged {
        Privilege::Drop
    } else {
        Privilege::NoDrop
    }
}

/// The implicit `default` phase runs for a privileged process unless skipped.
pub open spec fn runs_default_phase_spec(privileged: bool, skip_default: bool) -> bool {
    privileged && !skip_default
}

/// The state after `step` ended, successfully or not.
pub open spec fn next_state_spec(step: JobStep, succeeded: bool, privileged: bool, skip_default: bool) -> JobState {
    if !succeeded {
        JobState::Failed
    } else {
        match step {
            JobStep::BuildWorkspace => JobState::Running(JobStep::SetupRepo),
            JobStep::SetupRepo => JobState::Running(JobStep::PurgeBuildCookbook),
            JobStep::PurgeBuildCookbook => JobState::Running(JobStep::SetupChef),
            JobStep::SetupChef => if runs_default_phase_spec(privileged, skip_default) {
                JobState::Running(JobStep::RunDefaultPhase)
            } else {
                JobState::Running(JobStep::RunPhases)
            },
            JobStep::RunDefaultPhase => JobState::Running(JobStep::RunPhases),
            JobStep::RunPhases => JobState::Done,
        }
    }
}

/// The privilege under which a phase step runs; the other steps do not
/// drop privileges.
pub open spec fn step_privilege_spec(step: JobStep, privileged: bool) -> Privilege {
    match step {
        JobStep::RunPhases => privilege_policy_spec(privileged),
        _ => Privilege::NoDrop,
    }
}

/// The policy under which the requested phases run.
pub fn privilege_policy(privileged: bool) -> (r: Privilege)
    ensures
        r == privilege_policy_spec(privileged),
{
    if privileged {
        Privilege::Drop
    } else {
        Privilege::NoDrop
    }
}

/// Whether the implicit `default` phase runs before the requested ones.
pub fn runs_default_phase(privileged: bool, skip_default: bool) -> (r: bool)
    ensures
        r == runs_default_phase_spec(privileged, skip_default),
{
    privileged && !skip_default
}

/// A run starts by building its workspace.
pub fn start() -> (r: JobState)
    ensures
        r == JobState::Running(JobStep::BuildWorkspace),
{
    JobState::Running(JobStep::BuildWorkspace)
}

/// The state that follows `state` once its step has ended; a finished run
/// stays as it is.
pub fn advance(state: JobState, succeeded: bool, privileged: bool, skip_default: bool) -> (r: JobState)
    ensures
        match state {
            JobState::Running(step) => r == next_state_spec(step, succeeded, privileged, skip_default),
            _ => r == state,
        },
{
    match state {
        JobState::Running(step) => {
            if !succeeded {
                JobState::Failed
            } else {
                match step {
                    JobStep::BuildWorkspace => JobState::Running(JobStep::SetupRepo),
                    JobStep::SetupRepo => JobState::Running(JobStep::PurgeBuildCookbook),
                    JobStep::PurgeBuildCookbook => JobState::Running(JobStep::SetupChef),
                    JobStep::SetupChef => if runs_default_phase(privileged, skip_default) {
                        JobState::Running(JobStep::RunDefaultPhase)
                    } else {
                        JobState::Running(JobStep::RunPhases)
                    },
                    JobStep::RunDefaultPhase => JobState::Running(JobStep::RunPhases),
                    JobStep::RunPhases => JobState::Done,
                }
            }
        },
        _ => state,
    }
}

/// The privilege under which `step` runs.
pub fn step_privilege(step: JobStep, privileged: bool) -> (r: Privilege)
    ensures
        r == step_privilege_spec(step, privileged),
{
    match step {
        JobStep::RunPhases => privilege_policy(privileged),
        _ => Privilege::NoDrop,
    }
}

/// The process exit code of a finished run: 0 when done, 1 when failed.
pub fn exit_code(state: JobState) -> (r: Option<i32>)
    ensures
        state is Done ==> r == Some(0i32),
        state is Failed ==> r == Some(1i32),
        state is Running ==> r is None,
{
    match state {
        JobState::Done => Some(0),
        JobState::Failed => Some(1),
        JobState::Running(_) => None,
    }
}

/// The `default` phase never drops privileges; the requested phases drop
/// them exactly when the process is privileged. The `default` phase comes
/// right after the job configuration exactly when the process is privileged
/// and it was not skipped.
pub proof fn lemma_privilege_policy(privileged: bool, skip_default: bool)
    ensures
        step_privilege_spec(JobStep::RunDefaultPhase, privileged) == Privilege::NoDrop,
        step_privilege_spec(JobStep::RunPhases, privileged) == Privilege::Drop <==> privileged,
        next_state_spec(JobStep::SetupChef, true, privileged, skip_default) == JobState::Running(JobStep::RunDefaultPhase)
            <==> privileged && !skip_default,
{
}

/// A failed step ends the run: no later step follows it.
pub proof fn lemma_failure_is_terminal(step: JobStep, privileged: bool, skip_default: bool)
    ensures
        next_state_spec(step, false, privileged, skip_default) == JobState::Failed,
{
}

} // verus!
