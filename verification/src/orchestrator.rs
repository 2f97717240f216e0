//! The phases of one run, from start to exit status, and what the progress
//! display shows while listings are worked on.

use vstd::prelude::*;

verus! {

/// Where a run stands.
#[derive(Clone, Copy, Debug, PartialEq, Eq, Structural)]
pub enum Phase {
    Idle,
    Discovering,
    /// Listings are being handed out: `total` were found, `done` of them
    /// are finished already.
    Dispatching { total: usize, done: usize },
    /// Every listing was handed out; `done` of `total` are finished.
    AwaitingCompletion { total: usize, done: usize },
    Reporting,
    Terminal { exit_code: i32 },
}

/// What happened in a run.
#[derive(Clone, Copy, Debug, PartialEq, Eq, Structural)]
pub enum Event {
    /// The run was started.
    Started,
    /// Discovery found `listings` listings.
    Discovered { listings: usize },
    /// One listing is finished.
    ListingDone,
    /// Every listing was handed out.
    Dispatched,
    /// The summary was printed; `failures` says whether anything failed.
    Reported { failures: bool },
}

/// The phase that follows `phase` on `event`; `None` where the event cannot
/// happen in that phase. A listing can finish while others are still being
/// handed out; the report follows when every listing was handed out and is
/// finished, and never before.
pub open spec fn next_phase(phase: Phase, event: Event) -> Option<Phase> {
    match (phase, event) {
        (Phase::Idle, Event::Started) => Some(Phase::Discovering),
        (Phase::Discovering, Event::Discovered { listings }) => Some(
            Phase::Dispatching { total: listings, done: 0 },
        ),
        (Phase::Dispatching { total, done }, Event::ListingDone) => if done < total {
            Some(Phase::Dispatching { total, done: (done + 1) as usize })
        } else {
            None
        },
        (Phase::Dispatching { total, done }, Event::Dispatched) => if done < total {
            Some(Phase::AwaitingCompletion { total, done })
        } else {
            Some(Phase::Reporting)
        },
        (Phase::AwaitingCompletion { total, done }, Event::ListingDone) => if done + 1 < total {
            Some(Phase::AwaitingCompletion { total, done: (done + 1) as usize })
        } else {
            Some(Phase::Reporting)
        },
        (Phase::Reporting, Event::Reported { failures }) => Some(
            Phase::Terminal {
                exit_code: if failures {
                    1
                } else {
                    0
                },
            },
        ),
        _ => None,
    }
}

/// The phase that follows `phase` on `event`; `None` where the event cannot
/// happen in that phase.
pub fn transition(phase: Phase, event: Event) -> (r: Option<Phase>)
    ensures
        r == next_phase(phase, event),
{
    match phase {
        Phase::Idle => match event {
            Event::Started => Some(Phase::Discovering),
            _ => None,
        },
        Phase::Discovering => match event {
            Event::Discovered { listings } => Some(Phase::Dispatching { total: listings, done: 0 }),
            _ => None,
        },
        Phase::Dispatching { total, done } => match event {
            Event::ListingDone => if done < total {
                Some(Phase::Dispatching { total, done: done + 1 })
            } else {
                None
            },
            Event::Dispatched => if done < total {
                Some(Phase::AwaitingCompletion { total, done })
            } else {
                Some(Phase::Reporting)
            },
            _ => None,
        },
        Phase::AwaitingCompletion { total, done } => match event {
            Event::ListingDone => if done < total && done + 1 < total {
                Some(Phase::AwaitingCompletion { total, done: done + 1 })
            } else {
                Some(Phase::Reporting)
            },
            _ => None,
        },
        Phase::Reporting => match event {
            Event::Reported { failures } => Some(
                Phase::Terminal {
                    exit_code: if failures {
                        1
                    } else {
                        0
                    },
                },
            ),
            _ => None,
        },
        Phase::Terminal { exit_code } => None,
    }
}

/// What the progress display shows after a listing is finished.
#[derive(Clone, Copy, Debug, PartialEq, Eq, Structural)]
pub struct ProgressUpdate {
    /// The number of finished listings.
    pub position: u64,
    /// Whether this was the last listing.
    pub complete: bool,
}

/// What the progress display shows once `processed` of `total` listings
/// are finished; nothing in a quiet run.
pub open spec fn progress_of(processed: usize, total: usize, quiet: bool) -> Option<
    ProgressUpdate,
> {
    if quiet {
        None
    } else {
        Some(ProgressUpdate { position: processed as u64, complete: processed == total })
    }
}

/// What the progress display shows once `processed` of `total` listings
/// are finished; nothing in a quiet run.
pub fn progress_update(processed: usize, total: usize, quiet: bool) -> (r: Option<ProgressUpdate>)
    ensures
        r == progress_of(processed, total, quiet),
{
    if quiet {
        None
    } else {
        Some(ProgressUpdate { position: processed as u64, complete: processed == total })
    }
}

} // verus!
