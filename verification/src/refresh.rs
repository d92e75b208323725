//! The refresh loop: what it decides on each tick, as a state machine that
//! the program drives.
//!
//! The loop waits (`Idle`), gathers what the sources have brought
//! (`Gathering`), hands the report to the display (`Rendering`) and waits
//! again. It fails for good (`Failed`) when a source has ended or when
//! gathering or rendering fails. The program does the work that each
//! `Action` names and reports back how it went.

use crate::cpu::CpuInfo;
use crate::error::ErrorKind;
use crate::measure::Measure;
use crate::screen::{local_timestamp, report_text, Probe, Screen};
use crate::signal::SignalFlag;
use vstd::prelude::*;
use vstd::string::*;

verus! {

/// The states of the refresh loop.
#[derive(Debug, Clone, Copy, PartialEq, Eq, Structural)]
pub enum Phase {
    /// Waiting out the refresh interval.
    Idle,
    /// Polling the sources and the collaborators.
    Gathering,
    /// Handing the report to the display.
    Rendering,
    /// Stopped for good.
    Failed,
}

/// Whether a source is still at work.
#[derive(Debug, PartialEq, Eq)]
pub enum Liveness {
    /// The source is running.
    Running,
    /// The source has ended; holds how.
    Finished(Result<(), ErrorKind>),
    /// The source has ended and cannot say how.
    Panicked,
}

/// What one tick found: the readings and samples that had arrived, oldest
/// first, and the answers of the collaborators.
#[derive(Debug, PartialEq, Eq)]
pub struct Gathered {
    /// The readings that the measurement source had sent.
    pub measures: Vec<Measure>,
    /// The samples that the system sampler had sent.
    pub samples: Vec<CpuInfo>,
    /// The answers of the collaborators.
    pub probe: Probe,
}

/// What the program is to do next.
#[derive(Debug, PartialEq, Eq)]
pub enum Action {
    /// Poll the sources and the collaborators.
    Gather,
    /// Show this report on the display.
    Render(String),
    /// Sleep for this long, in nanoseconds, and start the next tick.
    Sleep(u64),
    /// Leave the loop with this result.
    Stop(Result<(), ErrorKind>),
}

/// The newest of the values that arrived, which come oldest first.
pub open spec fn newest_of<T>(arrived: Seq<T>) -> Option<T> {
    if arrived.len() == 0 {
        None
    } else {
        Some(arrived.last())
    }
}

/// How long the loop sleeps after a tick that took `elapsed`: what is left
/// of the interval, and nothing where the tick took as long or longer.
pub open spec fn remaining(interval: nat, elapsed: nat) -> nat {
    if elapsed < interval {
        (interval - elapsed) as nat
    } else {
        0
    }
}

/// Whether `source` ends the loop.
pub open spec fn has_ended(source: Liveness) -> bool {
    !(source is Running)
}

/// The message for a measurement source that cannot say how it ended.
pub open spec fn measure_join_text() -> Seq<char> {
    "unable to join humidity/temperature thread"@
}

/// The message for a system sampler that cannot say how it ended.
pub open spec fn sampler_join_text() -> Seq<char> {
    "unable to join cpu usage/temperature thread"@
}

/// Whether `result` is the result that a loop leaves with when `source`
/// has ended, where `join_text` is the message for a source that cannot
/// say how it ended.
pub open spec fn is_result_of(
    result: Result<(), ErrorKind>,
    source: Liveness,
    join_text: Seq<char>,
) -> bool {
    match source {
        Liveness::Running => false,
        Liveness::Finished(outcome) => result == outcome,
        Liveness::Panicked => result matches Err(ErrorKind::Other(message)) && message@
            == join_text,
    }
}

/// Of two readings that arrive before one tick, the second is the newest.
pub proof fn lemma_newest_wins<T>(first: T, second: T)
    ensures
        newest_of(seq![first, second]) == Some(second),
{
}

/// The newest value that arrived is the last one, however many came
/// before it.
pub proof fn lemma_newest_is_last<T>(earlier: Seq<T>, last: T)
    ensures
        newest_of(earlier.push(last)) == Some(last),
{
}

/// Where two readings arrive before one tick, the snapshot holds the
/// second after that tick, whatever else the tick brings.
pub proof fn lemma_second_reading_is_held(
    screen: Screen,
    first: Measure,
    second: Measure,
    cpu: Option<CpuInfo>,
    sigusr1_received: bool,
    probe: Probe,
)
    ensures
        screen.updated(newest_of(seq![first, second]), cpu, sigusr1_received, probe).measure
            == second,
{
}

/// A tick that took as long as the interval, or longer, is followed by
/// no sleep; a shorter one by what makes up the interval. The sleep
/// depends on this tick alone.
pub proof fn lemma_sleep_makes_up_interval(interval: nat, elapsed: nat)
    ensures
        elapsed >= interval ==> remaining(interval, elapsed) == 0,
        elapsed < interval ==> elapsed + remaining(interval, elapsed) == interval,
        remaining(interval, elapsed) <= interval,
{
}

/// Takes the newest of the values that arrived.
pub fn newest<T>(arrived: Vec<T>) -> (latest: Option<T>)
    ensures
        latest == newest_of(arrived@),
{
    let mut arrived = arrived;
    arrived.pop()
}

/// Computes the sleep that follows a tick.
pub fn corrective_sleep(interval: u64, elapsed: u64) -> (sleep: u64)
    ensures
        sleep == remaining(interval as nat, elapsed as nat),
{
    if elapsed < interval {
        interval - elapsed
    } else {
        0
    }
}

/// The result that the loop leaves with when a source has ended.
fn result_of(source: Liveness, join_text: &str) -> (result: Result<(), ErrorKind>)
    requires
        has_ended(source),
    ensures
        is_result_of(result, source, join_text@),
{
    match source {
        Liveness::Finished(outcome) => outcome,
        _ => Err(ErrorKind::Other(String::from_str(join_text))),
    }
}

/// The refresh loop.
#[derive(Debug, PartialEq, Eq)]
pub struct RefreshLoop {
    /// The state of the loop.
    pub phase: Phase,
    /// The snapshot that the loop keeps up to date.
    pub screen: Screen,
    /// The flag that a signal raises.
    pub signal: SignalFlag,
    /// The time from one tick to the next, in nanoseconds.
    pub interval: u64,
}

impl RefreshLoop {
    /// A loop that waits for its first tick, with no signal pending.
    pub fn new(screen: Screen, interval: u64) -> (refresh: Self)
        ensures
            refresh.phase == Phase::Idle,
            refresh.screen == screen,
            !refresh.signal.pending,
            refresh.interval == interval,
    {
        Self { phase: Phase::Idle, screen, signal: SignalFlag::new(), interval }
    }

    /// Notes that the signal has come. It is observed when the loop next
    /// gathers.
    pub fn signal(&mut self)
        ensures
            final(self).signal == old(self).signal.raised(),
            final(self).phase == old(self).phase,
            final(self).screen == old(self).screen,
            final(self).interval == old(self).interval,
    {
        self.signal.raise();
    }

    /// Starts a tick, given whether the two sources are still at work.
    ///
    /// If the measurement source has ended, the loop fails and leaves
    /// with the result of that source; else, if the sampler has ended,
    /// with the result of the sampler. If both are running, the loop goes
    /// on to gather.
    pub fn start_tick(&mut self, measure_source: Liveness, sampler: Liveness) -> (action: Action)
        requires
            old(self).phase == Phase::Idle,
        ensures
            final(self).screen == old(self).screen,
            final(self).signal == old(self).signal,
            final(self).interval == old(self).interval,
            final(self).phase == if has_ended(measure_source) || has_ended(sampler) {
                Phase::Failed
            } else {
                Phase::Gathering
            },
            if has_ended(measure_source) {
                action matches Action::Stop(result) && is_result_of(
                    result,
                    measure_source,
                    measure_join_text(),
                )
            } else if has_ended(sampler) {
                action matches Action::Stop(result) && is_result_of(
                    result,
                    sampler,
                    sampler_join_text(),
                )
            } else {
                action == Action::Gather
            },
    {
        if let Liveness::Running = measure_source {
            if let Liveness::Running = sampler {
                self.phase = Phase::Gathering;
                Action::Gather
            } else {
                self.phase = Phase::Failed;
                Action::Stop(result_of(sampler, "unable to join cpu usage/temperature thread"))
            }
        } else {
            self.phase = Phase::Failed;
            Action::Stop(result_of(measure_source, "unable to join humidity/temperature thread"))
        }
    }

    /// Takes in what the program gathered at the local time `timestamp`.
    ///
    /// Where gathering failed, the loop fails and leaves with that error.
    /// Else the snapshot takes the newest reading and the newest sample
    /// that arrived, the pending signal is observed and flips the logging
    /// mode, the answers of the collaborators are taken over, and the loop
    /// goes on to render the report of the new snapshot, headed by
    /// `timestamp`.
    pub fn gathered_at(&mut self, outcome: Result<Gathered, ErrorKind>, timestamp: &str) -> (action:
        Action)
        requires
            old(self).phase == Phase::Gathering,
        ensures
            final(self).interval == old(self).interval,
            match outcome {
                Ok(found) => {
                    &&& final(self).phase == Phase::Rendering
                    &&& final(self).signal == old(self).signal.cleared()
                    &&& final(self).screen == old(self).screen.updated(
                        newest_of(found.measures@),
                        newest_of(found.samples@),
                        old(self).signal.pending,
                        found.probe,
                    )
                    &&& action matches Action::Render(report)
                    &&& report@ == report_text(final(self).screen, timestamp@)
                },
                Err(error) => {
                    &&& final(self).phase == Phase::Failed
                    &&& final(self).signal == old(self).signal
                    &&& final(self).screen == old(self).screen
                    &&& action == Action::Stop(Err(error))
                },
            },
    {
        match outcome {
            Ok(found) => {
                let observed = self.signal.take();
                self.screen.update(
                    newest(found.measures),
                    newest(found.samples),
                    observed,
                    found.probe,
                );
                self.phase = Phase::Rendering;
                Action::Render(self.screen.report(timestamp))
            },
            Err(error) => {
                self.phase = Phase::Failed;
                Action::Stop(Err(error))
            },
        }
    }

    /// Takes in what the program gathered, as `gathered_at` does at the
    /// local time that the clock shows.
    pub fn gathered(&mut self, outcome: Result<Gathered, ErrorKind>) -> (action: Action)
        requires
            old(self).phase == Phase::Gathering,
        ensures
            final(self).interval == old(self).interval,
            match outcome {
                Ok(found) => {
                    &&& final(self).phase == Phase::Rendering
                    &&& final(self).signal == old(self).signal.cleared()
                    &&& final(self).screen == old(self).screen.updated(
                        newest_of(found.measures@),
                        newest_of(found.samples@),
                        old(self).signal.pending,
                        found.probe,
                    )
                    &&& action matches Action::Render(report)
                    &&& exists|timestamp: Seq<char>|
                        report@ == report_text(final(self).screen, timestamp)
                },
                Err(error) => {
                    &&& final(self).phase == Phase::Failed
                    &&& final(self).signal == old(self).signal
                    &&& final(self).screen == old(self).screen
                    &&& action == Action::Stop(Err(error))
                },
            },
    {
        let timestamp = local_timestamp();
        self.gathered_at(outcome, timestamp.as_str())
    }

    /// Takes in how rendering went, and how long the tick has taken, in
    /// nanoseconds.
    ///
    /// Where rendering failed, the loop fails and leaves with that error.
    /// Else it waits again, and the program sleeps for what is left of the
    /// interval. Nothing of the time that the tick took is kept.
    pub fn rendered(&mut self, outcome: Result<(), ErrorKind>, elapsed: u64) -> (action: Action)
        requires
            old(self).phase == Phase::Rendering,
        ensures
            final(self).screen == old(self).screen,
            final(self).signal == old(self).signal,
            final(self).interval == old(self).interval,
            match outcome {
                Ok(_) => final(self).phase == Phase::Idle && action == Action::Sleep(
                    remaining(old(self).interval as nat, elapsed as nat) as u64,
                ),
                Err(error) => final(self).phase == Phase::Failed && action == Action::Stop(
                    Err(error),
                ),
            },
    {
        match outcome {
            Ok(_) => {
                self.phase = Phase::Idle;
                Action::Sleep(corrective_sleep(self.interval, elapsed))
            },
            Err(error) => {
                self.phase = Phase::Failed;
                Action::Stop(Err(error))
            },
        }
    }
}

} // verus!
