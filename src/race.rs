//! The coordinator's side of a parallel search: it launches one scan per
//! worker, then reads the workers' reports one at a time. The first report of
//! a match decides the race; if every worker reports without a match, the
//! search has failed.

use vstd::prelude::*;
use crate::search::Outcome;

verus! {

/// What the coordinator does after a report.
#[derive(Clone, Copy, Debug, PartialEq, Eq, Structural)]
pub enum Step {
    /// Keep waiting for the next report.
    Wait,
    /// A worker found this candidate: cancel the others and return it.
    Stop(u64),
    /// Every worker has finished without a match.
    Fail,
}

/// The state of a race between `num_workers` workers.
pub struct Race {
    /// How many workers were launched.
    pub num_workers: u64,
    /// How many workers have not reported yet.
    pub live: u64,
    /// The candidate of the first report of a match, once there is one.
    pub winner: Option<u64>,
}

impl Race {
    /// The counts agree, and no worker has finished once a winner is known.
    pub open spec fn wf(&self) -> bool {
        &&& self.num_workers > 0
        &&& self.live <= self.num_workers
        &&& self.winner is Some ==> self.live > 0
    }

    /// The race is over: there is a winner, or no worker is left.
    pub open spec fn decided(&self) -> bool {
        self.winner is Some || self.live == 0
    }

    /// A race in which all `num_workers` workers are still running.
    pub fn new(num_workers: u64) -> (r: Race)
        requires
            num_workers > 0,
        ensures
            r.wf(),
            r.num_workers == num_workers,
            r.live == num_workers,
            r.winner is None,
            !r.decided(),
    {
        Race { num_workers, live: num_workers, winner: None }
    }

    /// Whether the race is over.
    pub fn is_decided(&self) -> (r: bool)
        ensures
            r == self.decided(),
    {
        self.winner.is_some() || self.live == 0
    }

    /// Takes one worker's report. The first match wins; a worker that ends
    /// without a match leaves the race, and the race fails when the last one
    /// leaves.
    pub fn on_report(&mut self, report: Outcome) -> (s: Step)
        requires
            old(self).wf(),
            !old(self).decided(),
        ensures
            final(self).wf(),
            final(self).num_workers == old(self).num_workers,
            s is Wait <==> !final(self).decided(),
            match report {
                Outcome::Found(c) => {
                    &&& s == Step::Stop(c)
                    &&& final(self).winner == Some(c)
                    &&& final(self).live == old(self).live
                },
                _ => {
                    &&& final(self).winner is None
                    &&& final(self).live == old(self).live - 1
                    &&& s == (if final(self).live == 0 {
                        Step::Fail
                    } else {
                        Step::Wait
                    })
                },
            },
    {
        match report {
            Outcome::Found(c) => {
                self.winner = Some(c);
                Step::Stop(c)
            },
            _ => {
                self.live = self.live - 1;
                if self.live == 0 {
                    Step::Fail
                } else {
                    Step::Wait
                }
            },
        }
    }
}

} // verus!
