//! The course of one provisioning run: which outside step comes next, given
//! what the last one brought. The caller performs the steps; the decisions
//! are made here.

use crate::catalog::{BinaryPart, PartKind};
use vstd::prelude::*;

verus! {

/// The part of the run in which a failure arose.
#[derive(Clone, Copy, Debug, PartialEq, Eq, Structural)]
pub enum Phase {
    Resolve,
    Load,
    Attach,
    Commit,
}

/// Why a run ended without flashing.
#[derive(Clone, Copy, Debug, PartialEq, Eq, Structural)]
pub enum RunError {
    /// No chip or no build could be picked.
    SelectionFailed,
    /// No probe is attached to the machine.
    NoProbeFound,
    /// The probe could not be opened, or no session could be attached.
    AttachFailed,
    /// The payload of a part could not be fetched.
    FetchFailed { part_id: u128 },
    /// The image builder refused the payload of a part.
    FlashLoadFailed { part_id: u128 },
    /// The engine could not write the image.
    CommitFailed,
}

/// How a commit is made. The policy is fixed.
#[derive(Clone, Copy, Debug, PartialEq, Eq, Structural)]
pub struct CommitPolicy {
    pub verify: bool,
    pub double_buffering: bool,
    pub keep_unwritten_bytes: bool,
    pub skip_erase: bool,
    pub dry_run: bool,
}

/// Verification and double buffering on, unwritten bytes kept, erase not
/// skipped, no dry run.
pub open spec fn fixed_policy() -> CommitPolicy {
    CommitPolicy {
        verify: true,
        double_buffering: true,
        keep_unwritten_bytes: true,
        skip_erase: false,
        dry_run: false,
    }
}

/// The policy of every commit.
pub fn commit_policy() -> (r: CommitPolicy)
    ensures
        r == fixed_policy(),
{
    CommitPolicy {
        verify: true,
        double_buffering: true,
        keep_unwritten_bytes: true,
        skip_erase: false,
        dry_run: false,
    }
}

/// How the image builder is to take a payload in.
#[derive(Clone, Copy, Debug, PartialEq, Eq, Structural)]
pub enum LoadInstruction {
    /// An ELF image, which says itself where it goes.
    Elf,
    /// A raw binary at `base_address`, or at the engine's base where there
    /// is none, after `skip` bytes of the payload.
    Bin { base_address: Option<u64>, skip: u32 },
    /// An Intel HEX image, which says itself where it goes.
    Hex,
}

/// A 32-bit offset as a 64-bit address: a negative offset counts down from
/// the top of the address space.
pub open spec fn as_address(offset: i32) -> u64 {
    if offset >= 0 {
        offset as u64
    } else {
        (offset + 0x1_0000_0000_0000_0000) as u64
    }
}

/// The instruction for a part of the given kind and offset.
pub open spec fn instruction_for(part: BinaryPart) -> LoadInstruction {
    match part.kind {
        PartKind::Elf => LoadInstruction::Elf,
        PartKind::Bin => LoadInstruction::Bin {
            base_address: match part.memory_offset {
                Some(offset) => Some(as_address(offset)),
                None => None,
            },
            skip: 0,
        },
        PartKind::Hex => LoadInstruction::Hex,
    }
}

/// How a part is loaded: by its kind, and for a raw binary at its offset.
pub fn load_instruction(part: &BinaryPart) -> (r: LoadInstruction)
    ensures
        r == instruction_for(*part),
{
    match part.kind {
        PartKind::Elf => LoadInstruction::Elf,
        PartKind::Bin => {
            let base_address = match part.memory_offset {
                Some(offset) => {
                    if offset >= 0 {
                        Some(offset as u64)
                    } else {
                        let below: i32 = -(offset + 1);
                        Some(u64::MAX - (below as u64))
                    }
                },
                None => None,
            };
            LoadInstruction::Bin { base_address, skip: 0 }
        },
        PartKind::Hex => LoadInstruction::Hex,
    }
}

/// What is announced before a part is fetched.
#[derive(Clone, Copy, Debug, PartialEq, Eq, Structural)]
pub struct PartNotice {
    /// The place of the part in its build, counted from one.
    pub ordinal: usize,
    /// The number of parts of the build.
    pub total: usize,
    /// The size of the part, where it is known.
    pub size_hint: Option<i32>,
}

/// Picks the probe to use: the first of those found.
pub fn select_probe(found: usize) -> (r: Result<usize, RunError>)
    ensures
        found == 0 <==> r == Err::<usize, RunError>(RunError::NoProbeFound),
        found > 0 <==> r == Ok::<usize, RunError>(0),
{
    if found == 0 {
        Err(RunError::NoProbeFound)
    } else {
        Ok(0)
    }
}

/// Where a run stands.
#[derive(Clone, Copy, Debug, PartialEq, Eq, Structural)]
pub enum RunState {
    /// The chip and the build are being picked.
    Resolving,
    /// The attached probes are being listed.
    Probing,
    /// The probe is being opened and the session attached.
    Attaching,
    /// The payload of the part at `part` is being fetched.
    Fetching { part: usize },
    /// The payload of the part at `part` is being handed to the image builder.
    Loading { part: usize },
    /// The image is being written to the chip.
    Flashing,
    Succeeded,
    Failed { phase: Phase },
}

/// What an outside step brought.
#[derive(Clone, Copy, Debug, PartialEq, Eq, Structural)]
pub enum RunEvent {
    Resolved,
    ResolveFailed,
    ProbesListed { found: usize },
    Attached,
    AttachFailed,
    Fetched,
    FetchFailed,
    Loaded,
    LoadFailed,
    Committed,
    CommitFailed,
}

/// The outside step to take next.
#[derive(Clone, Copy, Debug, PartialEq, Eq, Structural)]
pub enum RunAction {
    ListProbes,
    Attach { probe: usize },
    /// Announce the part, then fetch its payload.
    Fetch { part: usize, notice: PartNotice },
    Load { part: usize, instruction: LoadInstruction },
    Commit { policy: CommitPolicy },
    /// The run is over and went well.
    Finish,
    /// The run is over; report the error.
    Abort { error: RunError },
    /// The event was not awaited: nothing is to be done.
    Nothing,
}

/// The announcement for the part at `part`.
pub open spec fn notice_for(parts: Seq<BinaryPart>, part: int) -> PartNotice {
    PartNotice {
        ordinal: (part + 1) as usize,
        total: parts.len() as usize,
        size_hint: parts[part].nvm_size,
    }
}

/// The step that takes up the part at `part`: its fetch, or the commit once
/// no part is left.
pub open spec fn take_up(parts: Seq<BinaryPart>, part: int) -> (RunState, RunAction) {
    if part < parts.len() {
        (
            RunState::Fetching { part: part as usize },
            RunAction::Fetch { part: part as usize, notice: notice_for(parts, part) },
        )
    } else {
        (RunState::Flashing, RunAction::Commit { policy: fixed_policy() })
    }
}

/// The state and the action that follow `event` in `state`, for a build of
/// the given parts. The probe is attached before the first part is fetched.
/// The parts are taken in order, each fetched and loaded before the next is
/// fetched. Every failure ends the run. An event that the state does not
/// await changes nothing.
pub open spec fn next(state: RunState, event: RunEvent, parts: Seq<BinaryPart>) -> (
    RunState,
    RunAction,
) {
    match (state, event) {
        (RunState::Resolving, RunEvent::Resolved) => (RunState::Probing, RunAction::ListProbes),
        (RunState::Resolving, RunEvent::ResolveFailed) => (
            RunState::Failed { phase: Phase::Resolve },
            RunAction::Abort { error: RunError::SelectionFailed },
        ),
        (RunState::Probing, RunEvent::ProbesListed { found }) => if found == 0 {
            (
                RunState::Failed { phase: Phase::Attach },
                RunAction::Abort { error: RunError::NoProbeFound },
            )
        } else {
            (RunState::Attaching, RunAction::Attach { probe: 0 })
        },
        (RunState::Attaching, RunEvent::Attached) => take_up(parts, 0),
        (RunState::Attaching, RunEvent::AttachFailed) => (
            RunState::Failed { phase: Phase::Attach },
            RunAction::Abort { error: RunError::AttachFailed },
        ),
        (RunState::Fetching { part }, RunEvent::Fetched) => if part < parts.len() {
            (
                RunState::Loading { part },
                RunAction::Load { part, instruction: instruction_for(parts[part as int]) },
            )
        } else {
            (state, RunAction::Nothing)
        },
        (RunState::Fetching { part }, RunEvent::FetchFailed) => if part < parts.len() {
            (
                RunState::Failed { phase: Phase::Load },
                RunAction::Abort { error: RunError::FetchFailed { part_id: parts[part as int].id } },
            )
        } else {
            (state, RunAction::Nothing)
        },
        (RunState::Loading { part }, RunEvent::Loaded) => if part < parts.len() {
            take_up(parts, part + 1)
        } else {
            (state, RunAction::Nothing)
        },
        (RunState::Loading { part }, RunEvent::LoadFailed) => if part < parts.len() {
            (
                RunState::Failed { phase: Phase::Load },
                RunAction::Abort {
                    error: RunError::FlashLoadFailed { part_id: parts[part as int].id },
                },
            )
        } else {
            (state, RunAction::Nothing)
        },
        (RunState::Flashing, RunEvent::Committed) => (RunState::Succeeded, RunAction::Finish),
        (RunState::Flashing, RunEvent::CommitFailed) => (
            RunState::Failed { phase: Phase::Commit },
            RunAction::Abort { error: RunError::CommitFailed },
        ),
        _ => (state, RunAction::Nothing),
    }
}

/// The state in which every run begins.
pub fn start() -> (r: RunState)
    ensures
        r == RunState::Resolving,
{
    RunState::Resolving
}

fn take_up_part(parts: &Vec<BinaryPart>, part: usize) -> (r: (RunState, RunAction))
    requires
        part <= parts.len(),
    ensures
        r == take_up(parts@, part as int),
{
    if part < parts.len() {
        let notice = PartNotice {
            ordinal: part + 1,
            total: parts.len(),
            size_hint: parts[part].nvm_size,
        };
        (RunState::Fetching { part }, RunAction::Fetch { part, notice })
    } else {
        (RunState::Flashing, RunAction::Commit { policy: commit_policy() })
    }
}

/// Takes one event in, and says what to do next.
pub fn step(state: RunState, event: RunEvent, parts: &Vec<BinaryPart>) -> (r: (
    RunState,
    RunAction,
))
    ensures
        r == next(state, event, parts@),
{
    match (state, event) {
        (RunState::Resolving, RunEvent::Resolved) => (RunState::Probing, RunAction::ListProbes),
        (RunState::Resolving, RunEvent::ResolveFailed) => (
            RunState::Failed { phase: Phase::Resolve },
            RunAction::Abort { error: RunError::SelectionFailed },
        ),
        (RunState::Probing, RunEvent::ProbesListed { found }) => {
            match select_probe(found) {
                Ok(probe) => (RunState::Attaching, RunAction::Attach { probe }),
                Err(error) => (RunState::Failed { phase: Phase::Attach }, RunAction::Abort { error }),
            }
        },
        (RunState::Attaching, RunEvent::Attached) => take_up_part(parts, 0),
        (RunState::Attaching, RunEvent::AttachFailed) => (
            RunState::Failed { phase: Phase::Attach },
            RunAction::Abort { error: RunError::AttachFailed },
        ),
        (RunState::Fetching { part }, RunEvent::Fetched) => {
            if part < parts.len() {
                (
                    RunState::Loading { part },
                    RunAction::Load { part, instruction: load_instruction(&parts[part]) },
                )
            } else {
                (state, RunAction::Nothing)
            }
        },
        (RunState::Fetching { part }, RunEvent::FetchFailed) => {
            if part < parts.len() {
                (
                    RunState::Failed { phase: Phase::Load },
                    RunAction::Abort { error: RunError::FetchFailed { part_id: parts[part].id } },
                )
            } else {
                (state, RunAction::Nothing)
            }
        },
        (RunState::Loading { part }, RunEvent::Loaded) => {
            if part < parts.len() {
                take_up_part(parts, part + 1)
            } else {
                (state, RunAction::Nothing)
            }
        },
        (RunState::Loading { part }, RunEvent::LoadFailed) => {
            if part < parts.len() {
                (
                    RunState::Failed { phase: Phase::Load },
                    RunAction::Abort {
                        error: RunError::FlashLoadFailed { part_id: parts[part].id },
                    },
                )
            } else {
                (state, RunAction::Nothing)
            }
        },
        (RunState::Flashing, RunEvent::Committed) => (RunState::Succeeded, RunAction::Finish),
        (RunState::Flashing, RunEvent::CommitFailed) => (
            RunState::Failed { phase: Phase::Commit },
            RunAction::Abort { error: RunError::CommitFailed },
        ),
        _ => (state, RunAction::Nothing),
    }
}

/// A run that has succeeded or failed stays as it is and asks for nothing
/// more: after a failure no part is fetched and nothing is committed.
pub proof fn law_ended_run_stays(state: RunState, event: RunEvent, parts: Seq<BinaryPart>)
    requires
        state is Succeeded || state is Failed,
    ensures
        next(state, event, parts) == (state, RunAction::Nothing),
{
}

/// A payload that the image builder refuses ends the run in the load phase,
/// with the refused part named.
pub proof fn law_load_failure_ends_run(part: usize, parts: Seq<BinaryPart>)
    requires
        part < parts.len(),
    ensures
        next(RunState::Loading { part }, RunEvent::LoadFailed, parts) == (
            RunState::Failed { phase: Phase::Load },
            RunAction::Abort { error: RunError::FlashLoadFailed { part_id: parts[part as int].id } },
        ),
{
}

/// Parts are fetched in catalog order: the first once the session is
/// attached, each other one once the part before it has been loaded.
pub proof fn law_parts_fetched_in_order(
    state: RunState,
    event: RunEvent,
    parts: Seq<BinaryPart>,
    part: usize,
)
    requires
        parts.len() <= usize::MAX,
        next(state, event, parts).1 is Fetch,
        next(state, event, parts).1->Fetch_part == part,
    ensures
        part < parts.len(),
        next(state, event, parts).0 == (RunState::Fetching { part }),
        part == 0 ==> state is Attaching && event is Attached,
        part > 0 ==> state == (RunState::Loading { part: (part - 1) as usize }) && event
            is Loaded,
{
}

/// The image is committed only once every part has been loaded, and always
/// with the fixed policy.
pub proof fn law_commit_after_all_parts(state: RunState, event: RunEvent, parts: Seq<BinaryPart>)
    requires
        parts.len() <= usize::MAX,
        next(state, event, parts).1 is Commit,
    ensures
        next(state, event, parts).1 == (RunAction::Commit { policy: fixed_policy() }),
        parts.len() == 0 ==> state is Attaching && event is Attached,
        parts.len() > 0 ==> state == (RunState::Loading { part: (parts.len() - 1) as usize })
            && event is Loaded,
{
}

} // verus!
