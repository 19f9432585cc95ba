//! The course of a run: the warm-up, the measured time, the stop, and the
//! wait for the workers, after which alone the results are read.
//!
//! The driver sleeps and waits for nobody. It says what is to be done
//! next, and is told when that has happened and what time it is then.

use crate::collector::{Collector, CollectorView, NANOS_PER_SEC};
use vstd::prelude::*;

verus! {

/// So many seconds in nanoseconds.
pub open spec fn seconds(secs: u16) -> u128 {
    (secs * 1000000000) as u128
}

/// Where a run stands.
#[derive(Clone, Copy, Debug, PartialEq, Eq, Structural)]
pub enum Stage {
    /// Not begun.
    Ready,
    /// The workers send, and nothing is counted for the results.
    WarmingUp,
    /// The workers send, and what they send is counted.
    Measuring,
    /// The run was stopped; not every worker has ended yet.
    Stopping,
    /// Every worker has ended, or none was ever started.
    Done,
}

/// What the driver asks for next.
#[derive(Clone, Copy, Debug, PartialEq, Eq, Structural)]
pub enum Step {
    /// Send one request, and be done.
    SendOne,
    /// Start `workers` workers and the ticker, which prints every
    /// `print_interval` of a run that is to take `total_duration`; then
    /// sleep for `sleep`.
    Launch { workers: u16, print_interval: u128, total_duration: u128, sleep: u128 },
    /// Sleep for `duration`.
    Sleep { duration: u128 },
    /// Wait for a worker to end.
    Await,
    /// Read the results of the time from `start` to `end`, and print
    /// them.
    Report { start: u128, end: u128 },
}

/// The state of a [`Driver`]. Times are in nanoseconds.
pub struct DriverView {
    /// Whether one request is all that is asked for.
    pub just_one: bool,
    pub concurrency: u16,
    /// The length of the warm-up; 0 for none.
    pub warmup: u128,
    /// The length of the measured time.
    pub duration: u128,
    pub print_interval: u128,
    pub stage: Stage,
    /// The workers that were started and have not ended.
    pub running: u16,
    /// When the measured time began.
    pub test_start: u128,
    /// When the run was stopped.
    pub test_end: u128,
}

impl DriverView {
    /// The first step of the run at the time `now`: one request where no
    /// more is asked for; else the workers and the ticker, and the warm-up
    /// where there is one, which the collector is told of.
    pub open spec fn started(self, collector: CollectorView, now: u128) -> (
        DriverView,
        CollectorView,
        Step,
    ) {
        if self.just_one {
            (DriverView { stage: Stage::Done, ..self }, collector, Step::SendOne)
        } else {
            let launch = Step::Launch {
                workers: self.concurrency,
                print_interval: self.print_interval,
                total_duration: (self.warmup + self.duration) as u128,
                sleep: if self.warmup > 0 {
                    self.warmup
                } else {
                    self.duration
                },
            };
            if self.warmup > 0 {
                (
                    DriverView {
                        stage: Stage::WarmingUp,
                        running: self.concurrency,
                        test_start: now,
                        ..self
                    },
                    CollectorView { warming_up: true, ..collector },
                    launch,
                )
            } else {
                (
                    DriverView {
                        stage: Stage::Measuring,
                        running: self.concurrency,
                        test_start: now,
                        ..self
                    },
                    collector,
                    launch,
                )
            }
        }
    }

    /// The step after a sleep that ended at the time `now`. After the
    /// warm-up the measured time begins, at `now`. After the measured time
    /// the run is stopped, at `now`, and each worker is waited for; where
    /// there is none, the results are read at once.
    pub open spec fn woken(self, collector: CollectorView, now: u128) -> (
        DriverView,
        CollectorView,
        Step,
    )
        recommends
            self.stage == Stage::WarmingUp || self.stage == Stage::Measuring,
    {
        if self.stage == Stage::WarmingUp {
            (
                DriverView { stage: Stage::Measuring, test_start: now, ..self },
                CollectorView { warming_up: false, ..collector },
                Step::Sleep { duration: self.duration },
            )
        } else if self.running == 0 {
            (
                DriverView { stage: Stage::Done, test_end: now, ..self },
                CollectorView { stopped: true, ..collector },
                Step::Report { start: self.test_start, end: now },
            )
        } else {
            (
                DriverView { stage: Stage::Stopping, test_end: now, ..self },
                CollectorView { stopped: true, ..collector },
                Step::Await,
            )
        }
    }

    /// The step after a worker has ended: to wait for the next one, or,
    /// after the last, to read the results of the measured time.
    pub open spec fn joined(self) -> (DriverView, Step)
        recommends
            self.stage == Stage::Stopping,
            self.running > 0,
    {
        if self.running == 1 {
            (
                DriverView { stage: Stage::Done, running: 0, ..self },
                Step::Report { start: self.test_start, end: self.test_end },
            )
        } else {
            (DriverView { running: (self.running - 1) as u16, ..self }, Step::Await)
        }
    }
}

/// The results are read only when no worker is left that could still hand
/// its counts over, and they are those of the measured time alone, which
/// begins when the warm-up ends.
pub proof fn lemma_report_is_last(state: DriverView, collector: CollectorView, now: u128)
    ensures
        state.stage == Stage::Stopping && state.running > 0 && state.joined().1 is Report
            ==> state.joined().0.running == 0 && state.joined().0.stage == Stage::Done,
        state.stage == Stage::Measuring && state.woken(collector, now).2 is Report
            ==> state.running == 0 && state.woken(collector, now).1.stopped,
        state.stage == Stage::WarmingUp ==> state.woken(collector, now).0.test_start == now
            && !state.woken(collector, now).1.warming_up,
        !(state.started(collector, now).2 is Report),
{
}

/// The course of a run.
#[derive(Debug)]
pub struct Driver {
    just_one: bool,
    concurrency: u16,
    warmup: u16,
    duration: u16,
    print_interval: u16,
    stage: Stage,
    running: u16,
    test_start: u128,
    test_end: u128,
}

impl View for Driver {
    type V = DriverView;

    closed spec fn view(&self) -> DriverView {
        DriverView {
            just_one: self.just_one,
            concurrency: self.concurrency,
            warmup: seconds(self.warmup),
            duration: seconds(self.duration),
            print_interval: seconds(self.print_interval),
            stage: self.stage,
            running: self.running,
            test_start: self.test_start,
            test_end: self.test_end,
        }
    }
}

impl Driver {
    /// A run of `concurrency` workers that is measured for `duration`
    /// seconds after a warm-up of `warmup` seconds, and shows its progress
    /// every `print_interval` seconds; or, with `just_one`, one request.
    pub fn new(just_one: bool, concurrency: u16, duration: u16, warmup: u16, print_interval: u16)
        -> (driver: Driver)
        ensures
            driver@ == (DriverView {
                just_one,
                concurrency,
                warmup: seconds(warmup),
                duration: seconds(duration),
                print_interval: seconds(print_interval),
                stage: Stage::Ready,
                running: 0,
                test_start: 0,
                test_end: 0,
            }),
    {
        Driver {
            just_one,
            concurrency,
            warmup,
            duration,
            print_interval,
            stage: Stage::Ready,
            running: 0,
            test_start: 0,
            test_end: 0,
        }
    }

    /// Where the run stands.
    pub fn stage(&self) -> (stage: Stage)
        ensures
            stage == self@.stage,
    {
        self.stage
    }

    /// The workers that were started and have not ended.
    pub fn running(&self) -> (running: u16)
        ensures
            running == self@.running,
    {
        self.running
    }

    /// Begins the run at the time `now`.
    pub fn start(&mut self, collector: &mut Collector, now: u128) -> (step: Step)
        requires
            old(self)@.stage == Stage::Ready,
        ensures
            (final(self)@, final(collector)@, step) == old(self)@.started(old(collector)@, now),
    {
        if self.just_one {
            self.stage = Stage::Done;
            return Step::SendOne;
        }
        self.running = self.concurrency;
        self.test_start = now;
        let warmup = (self.warmup as u128) * NANOS_PER_SEC;
        let duration = (self.duration as u128) * NANOS_PER_SEC;
        let sleep = if self.warmup > 0 {
            collector.set_warming_up(true);
            self.stage = Stage::WarmingUp;
            warmup
        } else {
            self.stage = Stage::Measuring;
            duration
        };
        Step::Launch {
            workers: self.concurrency,
            print_interval: (self.print_interval as u128) * NANOS_PER_SEC,
            total_duration: warmup + duration,
            sleep,
        }
    }

    /// Goes on after the sleep that was asked for, which ended at the time
    /// `now`.
    pub fn wake(&mut self, collector: &mut Collector, now: u128) -> (step: Step)
        requires
            old(self)@.stage == Stage::WarmingUp || old(self)@.stage == Stage::Measuring,
        ensures
            (final(self)@, final(collector)@, step) == old(self)@.woken(old(collector)@, now),
    {
        if self.stage == Stage::WarmingUp {
            collector.set_warming_up(false);
            self.test_start = now;
            self.stage = Stage::Measuring;
            return Step::Sleep { duration: (self.duration as u128) * NANOS_PER_SEC };
        }
        collector.stop();
        self.test_end = now;
        if self.running == 0 {
            self.stage = Stage::Done;
            Step::Report { start: self.test_start, end: now }
        } else {
            self.stage = Stage::Stopping;
            Step::Await
        }
    }

    /// Goes on after a worker has ended.
    pub fn join(&mut self) -> (step: Step)
        requires
            old(self)@.stage == Stage::Stopping,
            old(self)@.running > 0,
        ensures
            (final(self)@, step) == old(self)@.joined(),
    {
        self.running = self.running - 1;
        if self.running == 0 {
            self.stage = Stage::Done;
            Step::Report { start: self.test_start, end: self.test_end }
        } else {
            Step::Await
        }
    }

    /// Whether the ticker goes on to its next tick: it does until the run
    /// is stopped.
    pub fn ticking(collector: &Collector) -> (go_on: bool)
        ensures
            go_on == !collector@.stopped,
    {
        !collector.stopped()
    }
}

} // verus!
