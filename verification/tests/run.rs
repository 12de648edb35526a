use forged_flash::catalog::{BinaryPart, PartKind};
use forged_flash::run::{
    commit_policy, load_instruction, select_probe, start, step, CommitPolicy, LoadInstruction,
    PartNotice, Phase, RunAction, RunError, RunEvent, RunState,
};

fn part(id: u128, kind: PartKind, memory_offset: Option<i32>, nvm_size: Option<i32>) -> BinaryPart {
    BinaryPart { id, kind, memory_offset, nvm_size }
}

fn two_parts() -> Vec<BinaryPart> {
    vec![
        part(10, PartKind::Elf, None, Some(2048)),
        part(11, PartKind::Bin, Some(0x0800_0000), None),
    ]
}

#[test]
fn policy_is_fixed() {
    assert_eq!(
        commit_policy(),
        CommitPolicy {
            verify: true,
            double_buffering: true,
            keep_unwritten_bytes: true,
            skip_erase: false,
            dry_run: false,
        }
    );
}

#[test]
fn first_probe_is_used() {
    assert_eq!(select_probe(0), Err(RunError::NoProbeFound));
    assert_eq!(select_probe(1), Ok(0));
    assert_eq!(select_probe(5), Ok(0));
}

#[test]
fn parts_are_loaded_by_kind() {
    assert_eq!(load_instruction(&part(1, PartKind::Elf, Some(4), None)), LoadInstruction::Elf);
    assert_eq!(load_instruction(&part(1, PartKind::Hex, Some(4), None)), LoadInstruction::Hex);
    assert_eq!(
        load_instruction(&part(1, PartKind::Bin, Some(0x0800_0000), None)),
        LoadInstruction::Bin { base_address: Some(0x0800_0000), skip: 0 }
    );
    assert_eq!(
        load_instruction(&part(1, PartKind::Bin, None, None)),
        LoadInstruction::Bin { base_address: None, skip: 0 }
    );
}

#[test]
fn negative_offset_counts_from_the_top() {
    assert_eq!(
        load_instruction(&part(1, PartKind::Bin, Some(-1), None)),
        LoadInstruction::Bin { base_address: Some(u64::MAX), skip: 0 }
    );
    assert_eq!(
        load_instruction(&part(1, PartKind::Bin, Some(i32::MIN), None)),
        LoadInstruction::Bin { base_address: Some(0xFFFF_FFFF_8000_0000), skip: 0 }
    );
}

#[test]
fn run_goes_through_every_part_in_order() {
    let parts = two_parts();
    let (state, action) = step(start(), RunEvent::Resolved, &parts);
    assert_eq!((state, action), (RunState::Probing, RunAction::ListProbes));
    let (state, action) = step(state, RunEvent::ProbesListed { found: 2 }, &parts);
    assert_eq!((state, action), (RunState::Attaching, RunAction::Attach { probe: 0 }));
    let (state, action) = step(state, RunEvent::Attached, &parts);
    assert_eq!(state, RunState::Fetching { part: 0 });
    assert_eq!(
        action,
        RunAction::Fetch {
            part: 0,
            notice: PartNotice { ordinal: 1, total: 2, size_hint: Some(2048) },
        }
    );
    let (state, action) = step(state, RunEvent::Fetched, &parts);
    assert_eq!(state, RunState::Loading { part: 0 });
    assert_eq!(action, RunAction::Load { part: 0, instruction: LoadInstruction::Elf });
    let (state, action) = step(state, RunEvent::Loaded, &parts);
    assert_eq!(state, RunState::Fetching { part: 1 });
    assert_eq!(
        action,
        RunAction::Fetch { part: 1, notice: PartNotice { ordinal: 2, total: 2, size_hint: None } }
    );
    let (state, action) = step(state, RunEvent::Fetched, &parts);
    assert_eq!(
        action,
        RunAction::Load {
            part: 1,
            instruction: LoadInstruction::Bin { base_address: Some(0x0800_0000), skip: 0 },
        }
    );
    let (state, action) = step(state, RunEvent::Loaded, &parts);
    assert_eq!(state, RunState::Flashing);
    assert_eq!(action, RunAction::Commit { policy: commit_policy() });
    let (state, action) = step(state, RunEvent::Committed, &parts);
    assert_eq!((state, action), (RunState::Succeeded, RunAction::Finish));
}

#[test]
fn load_failure_stops_the_run() {
    let parts = two_parts();
    let (state, action) = step(RunState::Loading { part: 0 }, RunEvent::LoadFailed, &parts);
    assert_eq!(state, RunState::Failed { phase: Phase::Load });
    assert_eq!(action, RunAction::Abort { error: RunError::FlashLoadFailed { part_id: 10 } });
    for event in [
        RunEvent::Fetched,
        RunEvent::Loaded,
        RunEvent::Attached,
        RunEvent::Committed,
        RunEvent::Resolved,
        RunEvent::ProbesListed { found: 1 },
    ] {
        assert_eq!(step(state, event, &parts), (state, RunAction::Nothing));
    }
}

#[test]
fn fetch_failure_on_second_part_stops_before_commit() {
    let parts = two_parts();
    let (state, action) = step(RunState::Fetching { part: 1 }, RunEvent::FetchFailed, &parts);
    assert_eq!(state, RunState::Failed { phase: Phase::Load });
    assert_eq!(action, RunAction::Abort { error: RunError::FetchFailed { part_id: 11 } });
    assert_eq!(step(state, RunEvent::Loaded, &parts), (state, RunAction::Nothing));
    assert_eq!(step(state, RunEvent::Committed, &parts), (state, RunAction::Nothing));
}

#[test]
fn failed_selection_asks_for_nothing_outside() {
    let parts: Vec<BinaryPart> = Vec::new();
    let (state, action) = step(start(), RunEvent::ResolveFailed, &parts);
    assert_eq!(state, RunState::Failed { phase: Phase::Resolve });
    assert_eq!(action, RunAction::Abort { error: RunError::SelectionFailed });
    assert_eq!(step(state, RunEvent::Fetched, &parts), (state, RunAction::Nothing));
}

#[test]
fn missing_probe_and_failed_attach_end_the_run() {
    let parts = two_parts();
    assert_eq!(
        step(RunState::Probing, RunEvent::ProbesListed { found: 0 }, &parts),
        (
            RunState::Failed { phase: Phase::Attach },
            RunAction::Abort { error: RunError::NoProbeFound },
        )
    );
    assert_eq!(
        step(RunState::Attaching, RunEvent::AttachFailed, &parts),
        (
            RunState::Failed { phase: Phase::Attach },
            RunAction::Abort { error: RunError::AttachFailed },
        )
    );
}

#[test]
fn commit_failure_is_its_own_phase() {
    let parts = two_parts();
    assert_eq!(
        step(RunState::Flashing, RunEvent::CommitFailed, &parts),
        (
            RunState::Failed { phase: Phase::Commit },
            RunAction::Abort { error: RunError::CommitFailed },
        )
    );
}

#[test]
fn build_without_parts_is_committed_at_once() {
    let parts: Vec<BinaryPart> = Vec::new();
    let (state, action) = step(RunState::Attaching, RunEvent::Attached, &parts);
    assert_eq!(state, RunState::Flashing);
    assert_eq!(action, RunAction::Commit { policy: commit_policy() });
}

#[test]
fn event_that_is_not_awaited_changes_nothing() {
    let parts = two_parts();
    assert_eq!(
        step(RunState::Probing, RunEvent::Loaded, &parts),
        (RunState::Probing, RunAction::Nothing)
    );
    assert_eq!(
        step(RunState::Fetching { part: 7 }, RunEvent::Fetched, &parts),
        (RunState::Fetching { part: 7 }, RunAction::Nothing)
    );
}
