//! Progress of the erase and program phases of a flash commit, kept as two
//! independent tracks that the engine's lifecycle events move.

use vstd::prelude::*;

verus! {

/// Where a track stands in its life.
#[derive(Clone, Copy, Debug, PartialEq, Eq, Structural)]
pub enum TrackStatus {
    NotStarted,
    Running,
    Finished,
    Failed,
}

impl TrackStatus {
    /// Finished and failed tracks move no further.
    pub open spec fn is_terminal(self) -> bool {
        self == TrackStatus::Finished || self == TrackStatus::Failed
    }

    /// The status after an event that aims at `target`: a terminal status
    /// stays, any other gives way.
    pub open spec fn moved_to(self, target: TrackStatus) -> TrackStatus {
        if self.is_terminal() {
            self
        } else {
            target
        }
    }

    fn move_to(self, target: TrackStatus) -> (r: TrackStatus)
        ensures
            r == self.moved_to(target),
    {
        match self {
            TrackStatus::Finished | TrackStatus::Failed => self,
            _ => target,
        }
    }
}

/// One of the two tracks.
#[derive(Clone, Copy, Debug, PartialEq, Eq, Structural)]
pub enum TrackId {
    Erase,
    Program,
}

/// Bytes done out of a total, with a status.
#[derive(Clone, Copy, Debug, PartialEq, Eq, Structural)]
pub struct Track {
    pub done: u64,
    pub total: u64,
    pub status: TrackStatus,
}

/// A lifecycle event of the flashing engine.
#[derive(Clone, Copy, Debug, PartialEq, Eq, Structural)]
pub enum ProgressEvent {
    Initialized { erase_total: u64, program_total: u64 },
    StartedErasing,
    SectorErased { size: u64 },
    FinishedErasing,
    FailedErasing,
    StartedProgramming { length: u64 },
    PageProgrammed { size: u64 },
    FinishedProgramming,
    FailedProgramming,
    /// Any event that moves neither track.
    Other,
}

/// The state of both tracks.
#[derive(Clone, Copy, Debug, PartialEq, Eq, Structural)]
pub struct Progress {
    pub erase: Track,
    pub program: Track,
}

/// `done` advanced by `size`, wrapping at the width of the counter: the
/// count is never clamped.
pub open spec fn advanced(done: u64, size: u64) -> u64 {
    ((done + size) % 0x1_0000_0000_0000_0000) as u64
}

/// A track of the given total with nothing done.
pub open spec fn fresh_track(total: u64) -> Track {
    Track { done: 0, total, status: TrackStatus::NotStarted }
}

/// The state after `event`.
pub open spec fn after(state: Progress, event: ProgressEvent) -> Progress {
    match event {
        ProgressEvent::Initialized { erase_total, program_total } => Progress {
            erase: fresh_track(erase_total),
            program: fresh_track(program_total),
        },
        ProgressEvent::StartedErasing => Progress {
            erase: Track { status: state.erase.status.moved_to(TrackStatus::Running), ..state.erase },
            ..state
        },
        ProgressEvent::SectorErased { size } => Progress {
            erase: Track { done: advanced(state.erase.done, size), ..state.erase },
            ..state
        },
        ProgressEvent::FinishedErasing => Progress {
            erase: Track { status: state.erase.status.moved_to(TrackStatus::Finished), ..state.erase },
            ..state
        },
        ProgressEvent::FailedErasing => Progress {
            erase: Track { status: state.erase.status.moved_to(TrackStatus::Failed), ..state.erase },
            ..state
        },
        ProgressEvent::StartedProgramming { length } => Progress {
            program: Track {
                total: length,
                status: state.program.status.moved_to(TrackStatus::Running),
                ..state.program
            },
            ..state
        },
        ProgressEvent::PageProgrammed { size } => Progress {
            program: Track { done: advanced(state.program.done, size), ..state.program },
            ..state
        },
        ProgressEvent::FinishedProgramming => Progress {
            program: Track {
                status: state.program.status.moved_to(TrackStatus::Finished),
                ..state.program
            },
            ..state
        },
        ProgressEvent::FailedProgramming => Progress {
            program: Track {
                status: state.program.status.moved_to(TrackStatus::Failed),
                ..state.program
            },
            ..state
        },
        ProgressEvent::Other => state,
    }
}

/// The track whose elapsed time starts anew with `event`, if any.
pub open spec fn clock_restarted(event: ProgressEvent) -> Option<TrackId> {
    match event {
        ProgressEvent::StartedErasing => Some(TrackId::Erase),
        ProgressEvent::StartedProgramming { .. } => Some(TrackId::Program),
        _ => None,
    }
}

impl Progress {
    /// Both tracks empty and not started.
    pub fn new() -> (r: Progress)
        ensures
            r == (Progress { erase: fresh_track(0), program: fresh_track(0) }),
    {
        Progress {
            erase: Track { done: 0, total: 0, status: TrackStatus::NotStarted },
            program: Track { done: 0, total: 0, status: TrackStatus::NotStarted },
        }
    }

    /// Takes one event in.
    pub fn apply(&mut self, event: ProgressEvent)
        ensures
            *final(self) == after(*old(self), event),
    {
        match event {
            ProgressEvent::Initialized { erase_total, program_total } => {
                self.erase = Track { done: 0, total: erase_total, status: TrackStatus::NotStarted };
                self.program = Track {
                    done: 0,
                    total: program_total,
                    status: TrackStatus::NotStarted,
                };
            },
            ProgressEvent::StartedErasing => {
                self.erase.status = self.erase.status.move_to(TrackStatus::Running);
            },
            ProgressEvent::SectorErased { size } => {
                self.erase.done = self.erase.done.wrapping_add(size);
            },
            ProgressEvent::FinishedErasing => {
                self.erase.status = self.erase.status.move_to(TrackStatus::Finished);
            },
            ProgressEvent::FailedErasing => {
                self.erase.status = self.erase.status.move_to(TrackStatus::Failed);
            },
            ProgressEvent::StartedProgramming { length } => {
                self.program.total = length;
                self.program.status = self.program.status.move_to(TrackStatus::Running);
            },
            ProgressEvent::PageProgrammed { size } => {
                self.program.done = self.program.done.wrapping_add(size);
            },
            ProgressEvent::FinishedProgramming => {
                self.program.status = self.program.status.move_to(TrackStatus::Finished);
            },
            ProgressEvent::FailedProgramming => {
                self.program.status = self.program.status.move_to(TrackStatus::Failed);
            },
            ProgressEvent::Other => {},
        }
    }
}

/// Which track restarts its clock on `event`.
pub fn clock_reset(event: ProgressEvent) -> (r: Option<TrackId>)
    ensures
        r == clock_restarted(event),
{
    match event {
        ProgressEvent::StartedErasing => Some(TrackId::Erase),
        ProgressEvent::StartedProgramming { .. } => Some(TrackId::Program),
        _ => None,
    }
}

/// The state after a run of events, taken in order.
pub open spec fn after_all(state: Progress, events: Seq<ProgressEvent>) -> Progress
    decreases events.len(),
{
    if events.len() == 0 {
        state
    } else {
        after_all(after(state, events[0]), events.drop_first())
    }
}

/// The sum of the sizes.
pub open spec fn sum_of(sizes: Seq<u64>) -> int
    decreases sizes.len(),
{
    if sizes.len() == 0 {
        0
    } else {
        sizes[0] + sum_of(sizes.drop_first())
    }
}

/// One `SectorErased` event for each size.
pub open spec fn sector_events(sizes: Seq<u64>) -> Seq<ProgressEvent> {
    Seq::new(sizes.len(), |i: int| ProgressEvent::SectorErased { size: sizes[i] })
}

/// The sum of the sizes, or `None` where it does not fit the counter.
pub fn checked_total(sizes: &Vec<u64>) -> (r: Option<u64>)
    ensures
        r matches Some(total) ==> total == sum_of(sizes@),
        r is None <==> sum_of(sizes@) > u64::MAX,
{
    let mut total: u64 = 0;
    let mut i: usize = sizes.len();
    assert(sizes@.subrange(i as int, sizes.len() as int) =~= Seq::<u64>::empty());
    while i > 0
        invariant
            i <= sizes.len(),
            total == sum_of(sizes@.subrange(i as int, sizes.len() as int)),
        decreases i,
    {
        i -= 1;
        let ghost tail = sizes@.subrange(i as int, sizes.len() as int);
        assert(tail.drop_first() =~= sizes@.subrange(i as int + 1, sizes.len() as int));
        assert(tail[0] == sizes[i as int]);
        match total.checked_add(sizes[i]) {
            Some(sum) => {
                total = sum;
            },
            None => {
                proof {
                    lemma_sum_grows(sizes@, i as int);
                }
                return None;
            },
        }
    }
    assert(sizes@.subrange(0, sizes.len() as int) =~= sizes@);
    Some(total)
}

/// No size is negative, so the sum of a tail is at most the sum of the whole.
proof fn lemma_sum_grows(sizes: Seq<u64>, from: int)
    requires
        0 <= from <= sizes.len(),
    ensures
        0 <= sum_of(sizes.subrange(from, sizes.len() as int)) <= sum_of(sizes),
    decreases from,
{
    let tail = sizes.subrange(from, sizes.len() as int);
    lemma_sum_nonnegative(tail);
    if from == 0 {
        assert(tail =~= sizes);
    } else {
        let longer = sizes.subrange(from - 1, sizes.len() as int);
        assert(longer.drop_first() =~= tail);
        lemma_sum_grows(sizes, from - 1);
    }
}

proof fn lemma_sum_nonnegative(sizes: Seq<u64>)
    ensures
        0 <= sum_of(sizes),
    decreases sizes.len(),
{
    if sizes.len() > 0 {
        lemma_sum_nonnegative(sizes.drop_first());
    }
}

/// Erasing sectors moves the erase count by their sum and nothing else, as
/// long as the count stays within the counter.
pub proof fn lemma_sectors_add_up(state: Progress, sizes: Seq<u64>)
    requires
        state.erase.done + sum_of(sizes) <= u64::MAX,
    ensures
        after_all(state, sector_events(sizes)) == (Progress {
            erase: Track { done: (state.erase.done + sum_of(sizes)) as u64, ..state.erase },
            ..state
        }),
    decreases sizes.len(),
{
    let events = sector_events(sizes);
    if sizes.len() > 0 {
        lemma_sum_nonnegative(sizes.drop_first());
        assert(events.drop_first() =~= sector_events(sizes.drop_first()));
        lemma_sectors_add_up(after(state, events[0]), sizes.drop_first());
    }
}

/// After `Initialized`, each track has the announced total and nothing done.
/// When sectors summing to the erase total have then been erased and the
/// erase phase has finished, the erase track is finished with all of its
/// total done.
pub proof fn law_erase_runs_to_its_total(
    state: Progress,
    erase_total: u64,
    program_total: u64,
    sizes: Seq<u64>,
)
    requires
        sum_of(sizes) == erase_total,
    ensures
        ({
            let started = after(state, ProgressEvent::Initialized { erase_total, program_total });
            let erased = after_all(started, sector_events(sizes));
            let finished = after(erased, ProgressEvent::FinishedErasing);
            &&& started.erase.total == erase_total
            &&& started.program.total == program_total
            &&& started.erase.done == 0
            &&& started.program.done == 0
            &&& finished.erase.status == TrackStatus::Finished
            &&& finished.erase.done == erase_total
        }),
{
    let started = after(state, ProgressEvent::Initialized { erase_total, program_total });
    lemma_sectors_add_up(started, sizes);
}

/// Only `Initialized` moves a track out of `Finished` or `Failed`.
pub proof fn law_terminal_status_stays(state: Progress, event: ProgressEvent)
    requires
        !(event is Initialized),
    ensures
        state.erase.status.is_terminal() ==> after(state, event).erase.status
            == state.erase.status,
        state.program.status.is_terminal() ==> after(state, event).program.status
            == state.program.status,
{
}

/// An event of the erase phase leaves the program track as it is, and an
/// event of the program phase leaves the erase track as it is.
pub proof fn law_tracks_are_independent(state: Progress, event: ProgressEvent)
    ensures
        event is StartedErasing || event is SectorErased || event is FinishedErasing
            || event is FailedErasing ==> after(state, event).program == state.program,
        event is StartedProgramming || event is PageProgrammed || event is FinishedProgramming
            || event is FailedProgramming ==> after(state, event).erase == state.erase,
{
}

} // verus!
