//! The iteration driver: a fixed number of iterations of one strategy on one
//! buffer, which is allocated when the run starts and never again.
//!
//! The caller opens the file anew for each iteration, asks for its length,
//! and hands the length and the byte source to the run. The first failure
//! ends the run.

use vstd::prelude::*;
use crate::buffer::{limited, Buffer};
use crate::report::{Failure, Report};
use crate::strategy::{len_after, outcome, region_after, untouched, Strategy};

verus! {

/// A run of one strategy: the strategy, its buffer, and the number of
/// iterations that are still to come.
pub struct Run {
    strategy: Strategy,
    buffer: Buffer,
    remaining: usize,
}

/// What a run of `iterations` iterations yields on a file that stays as it
/// is: a report for each iteration, or the failure of the first.
pub open spec fn run_outcome(
    strategy: Strategy,
    capacity: nat,
    declared: nat,
    source: Seq<u8>,
    iterations: nat,
) -> Result<Seq<Report>, Failure> {
    if iterations == 0 {
        Ok(Seq::empty())
    } else {
        match outcome(strategy, capacity, declared, source) {
            Ok(report) => Ok(Seq::new(iterations, |i: int| report)),
            Err(failure) => Err(failure),
        }
    }
}

impl Run {
    /// The strategy of the run.
    pub closed spec fn spec_strategy(&self) -> Strategy {
        self.strategy
    }

    /// The buffer of the run.
    pub closed spec fn spec_buffer(&self) -> &Buffer {
        &self.buffer
    }

    /// The number of iterations that are still to come.
    pub closed spec fn spec_remaining(&self) -> nat {
        self.remaining as nat
    }

    /// The invariant: the buffer is one that the strategy can work on.
    pub open spec fn wf(&self) -> bool {
        self.spec_strategy().accepts(self.spec_buffer())
    }

    /// Starts a run: allocates the buffer as the strategy's policy asks.
    pub fn start(strategy: Strategy, capacity: usize, iterations: usize) -> (run: Run)
        ensures
            run.wf(),
            run.spec_strategy() == strategy,
            run.spec_buffer().spec_capacity() == capacity,
            run.spec_remaining() == iterations,
    {
        Run { strategy, buffer: strategy.allocate(capacity), remaining: iterations }
    }

    /// The strategy of the run.
    pub fn strategy(&self) -> (strategy: Strategy)
        ensures
            strategy == self.spec_strategy(),
    {
        self.strategy
    }

    /// The buffer of the run.
    pub fn buffer(&self) -> (buffer: &Buffer)
        ensures
            buffer == self.spec_buffer(),
    {
        &self.buffer
    }

    /// The number of iterations that are still to come.
    pub fn remaining(&self) -> (remaining: usize)
        ensures
            remaining == self.spec_remaining(),
    {
        self.remaining
    }

    /// Whether the run is over: all iterations are done, or one has failed.
    pub fn is_done(&self) -> (done: bool)
        ensures
            done == (self.spec_remaining() == 0),
    {
        self.remaining == 0
    }

    /// Tells, from the length that a file declares and before any of it is
    /// read, whether the file fits the buffer.
    pub fn admits(&self, declared: usize) -> (result: Result<(), Failure>)
        ensures
            declared <= self.spec_buffer().spec_capacity() ==> result == Ok::<(), Failure>(()),
            declared > self.spec_buffer().spec_capacity() ==> result == Err::<(), Failure>(
                Failure::TooLarge,
            ),
    {
        if declared > self.buffer.capacity() {
            Err(Failure::TooLarge)
        } else {
            Ok(())
        }
    }

    /// Runs the next iteration on a file that declares `declared` bytes and
    /// delivers `source`. A run that is over does nothing and yields `None`.
    /// A report leaves one iteration fewer to come; a failure ends the run.
    pub fn iterate(&mut self, declared: usize, source: &[u8]) -> (result: Option<
        Result<Report, Failure>,
    >)
        requires
            old(self).wf(),
        ensures
            final(self).wf(),
            final(self).spec_strategy() == old(self).spec_strategy(),
            final(self).spec_buffer().spec_capacity() == old(self).spec_buffer().spec_capacity(),
            old(self).spec_remaining() == 0 ==> result is None && final(self).spec_remaining() == 0
                && untouched(old(self).spec_buffer(), final(self).spec_buffer()),
            old(self).spec_remaining() > 0 ==> result == Some(
                outcome(
                    old(self).spec_strategy(),
                    old(self).spec_buffer().spec_capacity(),
                    declared as nat,
                    source@,
                ),
            ),
            result matches Some(Ok(_)) ==> final(self).spec_remaining() == old(self).spec_remaining() - 1 && limited(
                final(self).spec_buffer().region(),
                declared as nat,
            ) == limited(source@, declared as nat),
            result matches Some(Err(_)) ==> final(self).spec_remaining() == 0,
            old(self).spec_remaining() > 0 ==> final(self).spec_buffer().region() == region_after(
                old(self).spec_strategy(),
                old(self).spec_buffer(),
                declared as nat,
                source@,
            ) && final(self).spec_buffer().spec_len() == len_after(
                old(self).spec_strategy(),
                old(self).spec_buffer(),
                declared as nat,
                source@,
            ),
    {
        if self.remaining == 0 {
            return None;
        }
        let result = self.strategy.read_into(&mut self.buffer, declared, source);
        match result {
            Ok(_) => {
                self.remaining = self.remaining - 1;
            },
            Err(_) => {
                self.remaining = 0;
            },
        }
        Some(result)
    }
}

/// Runs `iterations` iterations of a strategy on a file that stays as it is,
/// with a buffer of `capacity` bytes. Yields the reports in order, or the
/// failure of the first iteration.
pub fn run(
    strategy: Strategy,
    capacity: usize,
    declared: usize,
    source: &[u8],
    iterations: usize,
) -> (result: Result<Vec<Report>, Failure>)
    ensures
        match run_outcome(strategy, capacity as nat, declared as nat, source@, iterations as nat) {
            Ok(reports) => result is Ok && result->Ok_0@ == reports,
            Err(failure) => result == Err::<Vec<Report>, Failure>(failure),
        },
{
    let mut state: Run = Run::start(strategy, capacity, iterations);
    let mut reports: Vec<Report> = Vec::new();
    while !state.is_done()
        invariant
            state.wf(),
            state.spec_strategy() == strategy,
            state.spec_buffer().spec_capacity() == capacity,
            reports@.len() + state.spec_remaining() == iterations,
            forall|i: int|
                0 <= i < reports@.len() ==> Ok::<Report, Failure>(#[trigger] reports@[i]) == outcome(
                    strategy,
                    capacity as nat,
                    declared as nat,
                    source@,
                ),
        decreases state.spec_remaining(),
    {
        match state.iterate(declared, source) {
            Some(Ok(report)) => {
                reports.push(report);
            },
            Some(Err(failure)) => {
                return Err(failure);
            },
            None => vstd::pervasive::unreached(),
        }
    }
    proof {
        if iterations > 0 {
            let report = outcome(strategy, capacity as nat, declared as nat, source@)->Ok_0;
            assert(Ok::<Report, Failure>(reports@[0]) == outcome(
                strategy,
                capacity as nat,
                declared as nat,
                source@,
            ));
            assert(reports@ =~= Seq::new(iterations as nat, |i: int| report));
        } else {
            assert(reports@ =~= Seq::<Report>::empty());
        }
    }
    Ok(reports)
}

} // verus!
