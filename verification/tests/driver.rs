use sd_bench::config::{BenchConfig, MOUNT_RETRY_DELAY_MS};
use sd_bench::driver::{
    driver_step, pass_start, pass_step, resolve_start, resolve_step, DriverAction, DriverEvent,
    DriverState, IoOutcome, PassAction, PassKind, PassState, ResolveAction, ResolveState,
};

#[test]
fn driver_mounts_resolves_then_loops_forever() {
    let (s, a) = driver_step(DriverState::Mounting, DriverEvent::MountSucceeded);
    assert_eq!((s, a), (DriverState::Resolving, DriverAction::ResolveWorkspace));
    let (s, a) = driver_step(s, DriverEvent::WorkspaceReady);
    assert_eq!((s, a), (DriverState::Looping, DriverAction::RunCycle));
    let (s, a) = driver_step(s, DriverEvent::CycleFinished);
    assert_eq!((s, a), (DriverState::Looping, DriverAction::RunCycle));
}

#[test]
fn driver_retries_mount_without_bound() {
    let mut state = DriverState::Mounting;
    for _ in 0..5 {
        let (s, a) = driver_step(state, DriverEvent::MountFailed);
        assert_eq!((s, a), (DriverState::Mounting, DriverAction::RetryMountAfterDelay));
        state = s;
    }
}

#[test]
fn driver_halts_on_workspace_or_cycle_failure() {
    assert_eq!(
        driver_step(DriverState::Resolving, DriverEvent::WorkspaceFailed),
        (DriverState::Halted, DriverAction::Halt)
    );
    assert_eq!(
        driver_step(DriverState::Looping, DriverEvent::CycleFailed),
        (DriverState::Halted, DriverAction::Halt)
    );
}

#[test]
fn resolver_uses_existing_workspace() {
    let (s, a) = resolve_start();
    assert_eq!((s, a), (ResolveState::OpeningWorkspace, ResolveAction::OpenWorkspaceDir));
    let (s, a) = resolve_step(s, IoOutcome::Success);
    assert_eq!((s, a), (ResolveState::WorkspaceOpen, ResolveAction::UseWorkspace));
}

#[test]
fn resolver_creates_missing_workspace_then_reopens() {
    let (s, _) = resolve_start();
    let (s, a) = resolve_step(s, IoOutcome::NotFound);
    assert_eq!((s, a), (ResolveState::CreatingWorkspace, ResolveAction::MakeWorkspaceDir));
    let (s, a) = resolve_step(s, IoOutcome::Success);
    assert_eq!((s, a), (ResolveState::ReopeningWorkspace, ResolveAction::OpenWorkspaceDir));
    let (s, a) = resolve_step(s, IoOutcome::Success);
    assert_eq!((s, a), (ResolveState::WorkspaceOpen, ResolveAction::UseWorkspace));
}

#[test]
fn resolver_treats_any_failure_past_not_found_as_fatal() {
    let (s, _) = resolve_start();
    assert_eq!(
        resolve_step(s, IoOutcome::Failure),
        (ResolveState::ResolveFailed, ResolveAction::AbortResolve)
    );
    let (s, _) = resolve_step(ResolveState::OpeningWorkspace, IoOutcome::NotFound);
    assert_eq!(
        resolve_step(s, IoOutcome::Failure),
        (ResolveState::ResolveFailed, ResolveAction::AbortResolve)
    );
}

#[test]
fn write_pass_walks_delete_open_chunks_close_report() {
    let (s, a) = pass_start(PassKind::WritePass);
    assert_eq!((s, a), (PassState::DeletingOld, PassAction::DeleteTarget));
    // a missing file is the expected steady state: the delete is best-effort
    let (s, a) = pass_step(2, s, IoOutcome::NotFound);
    assert_eq!((s, a), (PassState::OpeningFile, PassAction::OpenReadWriteCreate));
    let (s, a) = pass_step(2, s, IoOutcome::Success);
    assert_eq!((s, a), (PassState::Transferring { done: 0 }, PassAction::TransferChunk));
    let (s, a) = pass_step(2, s, IoOutcome::Success);
    assert_eq!((s, a), (PassState::Transferring { done: 1 }, PassAction::TransferChunk));
    let (s, a) = pass_step(2, s, IoOutcome::Success);
    assert_eq!((s, a), (PassState::ClosingFile, PassAction::CloseFile));
    let (s, a) = pass_step(2, s, IoOutcome::Success);
    assert_eq!((s, a), (PassState::PassDone, PassAction::ReportSample));
}

#[test]
fn write_pass_delete_proceeds_even_on_other_failures() {
    let (s, _) = pass_start(PassKind::WritePass);
    let (s, a) = pass_step(1, s, IoOutcome::Failure);
    assert_eq!((s, a), (PassState::OpeningFile, PassAction::OpenReadWriteCreate));
}

#[test]
fn read_pass_opens_read_only_and_skips_delete() {
    let (s, a) = pass_start(PassKind::ReadPass);
    assert_eq!((s, a), (PassState::OpeningFile, PassAction::OpenReadOnly));
    let (s, a) = pass_step(1, s, IoOutcome::Success);
    assert_eq!((s, a), (PassState::Transferring { done: 0 }, PassAction::TransferChunk));
    let (s, a) = pass_step(1, s, IoOutcome::Success);
    assert_eq!((s, a), (PassState::ClosingFile, PassAction::CloseFile));
}

#[test]
fn pass_failures_after_delete_are_fatal() {
    let (s, _) = pass_start(PassKind::ReadPass);
    assert_eq!(
        pass_step(1, s, IoOutcome::NotFound),
        (PassState::PassFailed, PassAction::AbortRun)
    );
    assert_eq!(
        pass_step(3, PassState::Transferring { done: 1 }, IoOutcome::Failure),
        (PassState::PassFailed, PassAction::AbortRun)
    );
    assert_eq!(
        pass_step(3, PassState::ClosingFile, IoOutcome::Failure),
        (PassState::PassFailed, PassAction::AbortRun)
    );
}

#[test]
fn zero_chunk_pass_closes_immediately() {
    let (s, _) = pass_start(PassKind::ReadPass);
    let (s, a) = pass_step(0, s, IoOutcome::Success);
    assert_eq!((s, a), (PassState::ClosingFile, PassAction::CloseFile));
}

#[test]
fn config_defaults_match_the_two_variants() {
    let ws = BenchConfig::workspace_variant();
    assert_eq!(ws.chunk_size, 10240);
    assert_eq!(ws.chunk_count, 100);
    assert_eq!(ws.target_name, b"NonPar".to_vec());
    assert_eq!(ws.workspace_name, Some(b"ST".to_vec()));
    assert_eq!(ws.mount_retry_delay_ms, MOUNT_RETRY_DELAY_MS);
    assert_eq!(ws.mount_retry_delay_ms, 50);
    assert_eq!(ws.total_bytes(), 1_024_000);

    let root = BenchConfig::root_variant();
    assert_eq!(root.chunk_size, 2048);
    assert_eq!(root.chunk_count, 1000);
    assert_eq!(root.target_name, b"NonPar".to_vec());
    assert_eq!(root.workspace_name, None);
    assert_eq!(root.total_bytes(), 2_048_000);
}
