use forged_flash::progress::{
    checked_total, clock_reset, Progress, ProgressEvent, Track, TrackId, TrackStatus,
};

#[test]
fn new_progress_is_empty() {
    let state = Progress::new();
    let empty = Track { done: 0, total: 0, status: TrackStatus::NotStarted };
    assert_eq!(state.erase, empty);
    assert_eq!(state.program, empty);
}

#[test]
fn initialized_sets_both_totals() {
    let mut state = Progress::new();
    state.apply(ProgressEvent::SectorErased { size: 9 });
    state.apply(ProgressEvent::Initialized { erase_total: 4096, program_total: 1024 });
    assert_eq!(state.erase, Track { done: 0, total: 4096, status: TrackStatus::NotStarted });
    assert_eq!(state.program, Track { done: 0, total: 1024, status: TrackStatus::NotStarted });
}

#[test]
fn erase_runs_to_its_total() {
    let mut state = Progress::new();
    state.apply(ProgressEvent::Initialized { erase_total: 4096, program_total: 1024 });
    state.apply(ProgressEvent::StartedErasing);
    assert_eq!(state.erase.status, TrackStatus::Running);
    for size in [1024u64, 1024, 2048] {
        state.apply(ProgressEvent::SectorErased { size });
    }
    assert_eq!(state.erase.done, 4096);
    state.apply(ProgressEvent::FinishedErasing);
    assert_eq!(state.erase, Track { done: 4096, total: 4096, status: TrackStatus::Finished });
    assert_eq!(state.program, Track { done: 0, total: 1024, status: TrackStatus::NotStarted });
}

#[test]
fn programming_sets_its_own_total() {
    let mut state = Progress::new();
    state.apply(ProgressEvent::Initialized { erase_total: 10, program_total: 20 });
    state.apply(ProgressEvent::StartedProgramming { length: 300 });
    assert_eq!(state.program, Track { done: 0, total: 300, status: TrackStatus::Running });
    state.apply(ProgressEvent::PageProgrammed { size: 256 });
    state.apply(ProgressEvent::PageProgrammed { size: 44 });
    assert_eq!(state.program.done, 300);
    state.apply(ProgressEvent::FinishedProgramming);
    assert_eq!(state.program.status, TrackStatus::Finished);
    assert_eq!(state.erase, Track { done: 0, total: 10, status: TrackStatus::NotStarted });
}

#[test]
fn failure_of_one_track_leaves_the_other() {
    let mut state = Progress::new();
    state.apply(ProgressEvent::Initialized { erase_total: 10, program_total: 20 });
    state.apply(ProgressEvent::StartedErasing);
    state.apply(ProgressEvent::FailedErasing);
    assert_eq!(state.erase.status, TrackStatus::Failed);
    state.apply(ProgressEvent::StartedProgramming { length: 20 });
    state.apply(ProgressEvent::FailedProgramming);
    assert_eq!(state.program.status, TrackStatus::Failed);
    assert_eq!(state.erase.status, TrackStatus::Failed);
}

#[test]
fn ended_track_does_not_move_again() {
    let mut state = Progress::new();
    state.apply(ProgressEvent::StartedErasing);
    state.apply(ProgressEvent::FinishedErasing);
    state.apply(ProgressEvent::StartedErasing);
    assert_eq!(state.erase.status, TrackStatus::Finished);
    state.apply(ProgressEvent::FailedErasing);
    assert_eq!(state.erase.status, TrackStatus::Finished);
    state.apply(ProgressEvent::StartedProgramming { length: 1 });
    state.apply(ProgressEvent::FailedProgramming);
    state.apply(ProgressEvent::FinishedProgramming);
    assert_eq!(state.program.status, TrackStatus::Failed);
}

#[test]
fn count_is_not_clamped() {
    let mut state = Progress::new();
    state.apply(ProgressEvent::Initialized { erase_total: 10, program_total: 10 });
    state.apply(ProgressEvent::SectorErased { size: 25 });
    assert_eq!(state.erase.done, 25);
    assert_eq!(state.erase.total, 10);
    state.apply(ProgressEvent::SectorErased { size: u64::MAX });
    assert_eq!(state.erase.done, 24);
}

#[test]
fn other_events_change_nothing() {
    let mut state = Progress::new();
    state.apply(ProgressEvent::Initialized { erase_total: 3, program_total: 4 });
    let before = state;
    state.apply(ProgressEvent::Other);
    assert_eq!(state, before);
}

#[test]
fn clock_restarts_when_a_phase_starts() {
    assert_eq!(clock_reset(ProgressEvent::StartedErasing), Some(TrackId::Erase));
    assert_eq!(clock_reset(ProgressEvent::StartedProgramming { length: 4 }), Some(TrackId::Program));
    assert_eq!(clock_reset(ProgressEvent::FinishedErasing), None);
    assert_eq!(clock_reset(ProgressEvent::SectorErased { size: 4 }), None);
}

#[test]
fn totals_are_summed_or_refused() {
    assert_eq!(checked_total(&Vec::new()), Some(0));
    assert_eq!(checked_total(&vec![4096, 4096, 1024]), Some(9216));
    assert_eq!(checked_total(&vec![u64::MAX, 0]), Some(u64::MAX));
    assert_eq!(checked_total(&vec![u64::MAX, 1]), None);
    assert_eq!(checked_total(&vec![1, u64::MAX - 1, 1]), None);
}
