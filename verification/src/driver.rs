//! The benchmark orchestration, as explicit state machines.
//!
//! Every device operation — a mount attempt, a directory open or create, a
//! file open, delete, chunked read or write, a close — suspends on the
//! external filesystem driver, so the unverified driver loop performs the
//! operations; the decisions live here. Each machine maps its current state
//! and the outcome of the last operation to the next state and the next
//! action to perform, and its whole transition table is its contract:
//!
//! - [`driver_step`]: mount once (retrying on failure, without bound),
//!   resolve the workspace once, then loop forever running benchmark cycles;
//!   any unexpected failure halts.
//! - [`resolve_step`]: open the workspace directory under the root,
//!   creating it first when it does not exist yet (open-or-create, so the
//!   resolution is idempotent across runs); any failure past "not found" is
//!   fatal.
//! - [`pass_step`]: one benchmark pass — for a write pass, best-effort
//!   delete of the target and re-creation; then the fixed number of chunk
//!   transfers, sequentially; then the close, whose failure is fatal.

use vstd::prelude::*;

verus! {

/// The outcome of one device operation, as the driver loop reports it back:
/// it succeeded, it failed because the named entry does not exist, or it
/// failed for any other reason.
#[derive(Clone, Copy, Debug, PartialEq, Eq, Structural)]
pub enum IoOutcome {
    Success,
    NotFound,
    Failure,
}

/// The orchestration states: mount the volume, resolve the workspace, then
/// loop over benchmark cycles. `Halted` is terminal and only entered on a
/// fatal error.
#[derive(Clone, Copy, Debug, PartialEq, Eq, Structural)]
pub enum DriverState {
    Mounting,
    Resolving,
    Looping,
    Halted,
}

/// What the driver loop reports to the orchestration machine.
#[derive(Clone, Copy, Debug, PartialEq, Eq, Structural)]
pub enum DriverEvent {
    MountSucceeded,
    MountFailed,
    WorkspaceReady,
    WorkspaceFailed,
    CycleFinished,
    CycleFailed,
}

/// What the orchestration machine asks the driver loop to do next.
#[derive(Clone, Copy, Debug, PartialEq, Eq, Structural)]
pub enum DriverAction {
    /// Emit the retry diagnostic, suspend for the configured delay, and
    /// attempt the mount again.
    RetryMountAfterDelay,
    /// Resolve the workspace directory (or use the root directly, in the
    /// root-variant configuration, and report `WorkspaceReady` at once).
    ResolveWorkspace,
    /// Run one benchmark cycle: a timed write pass, then a timed read pass,
    /// reporting each normalized sample.
    RunCycle,
    /// Fatal: stop, loudly, without reporting a partial sample.
    Halt,
}

/// The orchestration's transition table.
pub open spec fn driver_transition(state: DriverState, event: DriverEvent) -> (
    DriverState,
    DriverAction,
) {
    match (state, event) {
        (DriverState::Mounting, DriverEvent::MountSucceeded) => (
            DriverState::Resolving,
            DriverAction::ResolveWorkspace,
        ),
        (DriverState::Mounting, DriverEvent::MountFailed) => (
            DriverState::Mounting,
            DriverAction::RetryMountAfterDelay,
        ),
        (DriverState::Resolving, DriverEvent::WorkspaceReady) => (
            DriverState::Looping,
            DriverAction::RunCycle,
        ),
        (DriverState::Looping, DriverEvent::CycleFinished) => (
            DriverState::Looping,
            DriverAction::RunCycle,
        ),
        _ => (DriverState::Halted, DriverAction::Halt),
    }
}

/// One orchestration step. A failed mount attempt never halts: it is retried
/// after the configured delay, without bound. A finished cycle starts the
/// next one, forever. Everything else — a workspace failure, a failed cycle,
/// an event that does not belong to the state — is fatal.
pub fn driver_step(state: DriverState, event: DriverEvent) -> (r: (DriverState, DriverAction))
    requires
        !(state is Halted),
    ensures
        r == driver_transition(state, event),
{
    match (state, event) {
        (DriverState::Mounting, DriverEvent::MountSucceeded) => (
            DriverState::Resolving,
            DriverAction::ResolveWorkspace,
        ),
        (DriverState::Mounting, DriverEvent::MountFailed) => (
            DriverState::Mounting,
            DriverAction::RetryMountAfterDelay,
        ),
        (DriverState::Resolving, DriverEvent::WorkspaceReady) => (
            DriverState::Looping,
            DriverAction::RunCycle,
        ),
        (DriverState::Looping, DriverEvent::CycleFinished) => (
            DriverState::Looping,
            DriverAction::RunCycle,
        ),
        _ => (DriverState::Halted, DriverAction::Halt),
    }
}

/// The workspace-resolution states. `WorkspaceOpen` and `ResolveFailed` are
/// terminal.
#[derive(Clone, Copy, Debug, PartialEq, Eq, Structural)]
pub enum ResolveState {
    /// The first open of the workspace directory is outstanding.
    OpeningWorkspace,
    /// The directory was absent; its creation is outstanding.
    CreatingWorkspace,
    /// The directory was just created; the re-open is outstanding.
    ReopeningWorkspace,
    /// The workspace directory is open.
    WorkspaceOpen,
    /// A step past "not found" failed: fatal.
    ResolveFailed,
}

/// What the resolution machine asks the driver loop to do next.
#[derive(Clone, Copy, Debug, PartialEq, Eq, Structural)]
pub enum ResolveAction {
    OpenWorkspaceDir,
    MakeWorkspaceDir,
    UseWorkspace,
    AbortResolve,
}

/// A resolution state the machine can still be stepped in.
pub open spec fn resolve_state_active(state: ResolveState) -> bool {
    !(state is WorkspaceOpen) && !(state is ResolveFailed)
}

/// The resolution's transition table.
pub open spec fn resolve_transition(state: ResolveState, outcome: IoOutcome) -> (
    ResolveState,
    ResolveAction,
) {
    match (state, outcome) {
        (ResolveState::OpeningWorkspace, IoOutcome::Success) => (
            ResolveState::WorkspaceOpen,
            ResolveAction::UseWorkspace,
        ),
        (ResolveState::OpeningWorkspace, IoOutcome::NotFound) => (
            ResolveState::CreatingWorkspace,
            ResolveAction::MakeWorkspaceDir,
        ),
        (ResolveState::CreatingWorkspace, IoOutcome::Success) => (
            ResolveState::ReopeningWorkspace,
            ResolveAction::OpenWorkspaceDir,
        ),
        (ResolveState::ReopeningWorkspace, IoOutcome::Success) => (
            ResolveState::WorkspaceOpen,
            ResolveAction::UseWorkspace,
        ),
        _ => (ResolveState::ResolveFailed, ResolveAction::AbortResolve),
    }
}

/// Workspace resolution starts by trying to open the directory under the
/// root.
pub fn resolve_start() -> (r: (ResolveState, ResolveAction))
    ensures
        r == (ResolveState::OpeningWorkspace, ResolveAction::OpenWorkspaceDir),
{
    (ResolveState::OpeningWorkspace, ResolveAction::OpenWorkspaceDir)
}

/// One workspace-resolution step: open, or on "not found" create and re-open
/// — so resolving is idempotent across runs — with any other failure fatal.
pub fn resolve_step(state: ResolveState, outcome: IoOutcome) -> (r: (ResolveState, ResolveAction))
    requires
        resolve_state_active(state),
    ensures
        r == resolve_transition(state, outcome),
{
    match (state, outcome) {
        (ResolveState::OpeningWorkspace, IoOutcome::Success) => (
            ResolveState::WorkspaceOpen,
            ResolveAction::UseWorkspace,
        ),
        (ResolveState::OpeningWorkspace, IoOutcome::NotFound) => (
            ResolveState::CreatingWorkspace,
            ResolveAction::MakeWorkspaceDir,
        ),
        (ResolveState::CreatingWorkspace, IoOutcome::Success) => (
            ResolveState::ReopeningWorkspace,
            ResolveAction::OpenWorkspaceDir,
        ),
        (ResolveState::ReopeningWorkspace, IoOutcome::Success) => (
            ResolveState::WorkspaceOpen,
            ResolveAction::UseWorkspace,
        ),
        _ => (ResolveState::ResolveFailed, ResolveAction::AbortResolve),
    }
}

/// Which pass a pass machine runs.
#[derive(Clone, Copy, Debug, PartialEq, Eq, Structural)]
pub enum PassKind {
    WritePass,
    ReadPass,
}

/// The states of one benchmark pass. `PassDone` and `PassFailed` are
/// terminal.
#[derive(Clone, Copy, Debug, PartialEq, Eq, Structural)]
pub enum PassState {
    /// The best-effort delete of the target file is outstanding (write pass
    /// only).
    DeletingOld,
    /// The open of the target file is outstanding.
    OpeningFile,
    /// `done` chunk transfers have completed; the next is outstanding.
    Transferring { done: usize },
    /// The close of the target file is outstanding.
    ClosingFile,
    /// The pass finished; its sample may be reported.
    PassDone,
    /// A fatal failure: the pass reports no sample.
    PassFailed,
}

/// What the pass machine asks the driver loop to do next.
#[derive(Clone, Copy, Debug, PartialEq, Eq, Structural)]
pub enum PassAction {
    /// Delete the target file, tolerating every failure (a missing file is
    /// the expected steady state).
    DeleteTarget,
    /// Open the target in read-write-create mode.
    OpenReadWriteCreate,
    /// Open the target in read-only mode.
    OpenReadOnly,
    /// Transfer one chunk: write the pattern buffer, or read into the
    /// reused buffer, depending on the pass kind.
    TransferChunk,
    /// Close the target file.
    CloseFile,
    /// Record the end timestamp and report the normalized sample.
    ReportSample,
    /// Fatal: stop without reporting a sample.
    AbortRun,
}

/// A pass state the machine can still be stepped in.
pub open spec fn pass_state_active(state: PassState) -> bool {
    !(state is PassDone) && !(state is PassFailed)
}

/// In a pass of `chunk_count` chunks, the transfer counter stays below the
/// count.
pub open spec fn pass_state_wf(state: PassState, chunk_count: usize) -> bool {
    state matches PassState::Transferring { done } ==> done < chunk_count
}

/// Where a pass begins: a write pass deletes the previous file first; a
/// read pass opens the file just written, read-only.
pub open spec fn pass_start_spec(kind: PassKind) -> (PassState, PassAction) {
    match kind {
        PassKind::WritePass => (PassState::DeletingOld, PassAction::DeleteTarget),
        PassKind::ReadPass => (PassState::OpeningFile, PassAction::OpenReadOnly),
    }
}

/// Starts a pass of the given kind.
pub fn pass_start(kind: PassKind) -> (r: (PassState, PassAction))
    ensures
        r == pass_start_spec(kind),
        pass_state_active(r.0),
        forall|chunk_count: usize| pass_state_wf(r.0, chunk_count),
{
    match kind {
        PassKind::WritePass => (PassState::DeletingOld, PassAction::DeleteTarget),
        PassKind::ReadPass => (PassState::OpeningFile, PassAction::OpenReadOnly),
    }
}

/// The pass's transition table: the delete is best-effort and proceeds on
/// every outcome; each further operation must succeed, and `chunk_count`
/// successful transfers are followed by the close and then the sample.
pub open spec fn pass_transition(chunk_count: usize, state: PassState, outcome: IoOutcome) -> (
    PassState,
    PassAction,
) {
    match (state, outcome) {
        (PassState::DeletingOld, _) => (PassState::OpeningFile, PassAction::OpenReadWriteCreate),
        (PassState::OpeningFile, IoOutcome::Success) => if chunk_count == 0 {
            (PassState::ClosingFile, PassAction::CloseFile)
        } else {
            (PassState::Transferring { done: 0 }, PassAction::TransferChunk)
        },
        (PassState::Transferring { done }, IoOutcome::Success) => if done + 1 == chunk_count {
            (PassState::ClosingFile, PassAction::CloseFile)
        } else {
            (PassState::Transferring { done: (done + 1) as usize }, PassAction::TransferChunk)
        },
        (PassState::ClosingFile, IoOutcome::Success) => (
            PassState::PassDone,
            PassAction::ReportSample,
        ),
        _ => (PassState::PassFailed, PassAction::AbortRun),
    }
}

/// One pass step.
pub fn pass_step(chunk_count: usize, state: PassState, outcome: IoOutcome) -> (r: (
    PassState,
    PassAction,
))
    requires
        pass_state_active(state),
        pass_state_wf(state, chunk_count),
    ensures
        r == pass_transition(chunk_count, state, outcome),
        pass_state_wf(r.0, chunk_count),
{
    match (state, outcome) {
        (PassState::DeletingOld, _) => (PassState::OpeningFile, PassAction::OpenReadWriteCreate),
        (PassState::OpeningFile, IoOutcome::Success) => if chunk_count == 0 {
            (PassState::ClosingFile, PassAction::CloseFile)
        } else {
            (PassState::Transferring { done: 0 }, PassAction::TransferChunk)
        },
        (PassState::Transferring { done }, IoOutcome::Success) => if done + 1 == chunk_count {
            (PassState::ClosingFile, PassAction::CloseFile)
        } else {
            (PassState::Transferring { done: done + 1 }, PassAction::TransferChunk)
        },
        (PassState::ClosingFile, IoOutcome::Success) => (
            PassState::PassDone,
            PassAction::ReportSample,
        ),
        _ => (PassState::PassFailed, PassAction::AbortRun),
    }
}

} // verus!
