//! The timer that drives the sampling of one domain.
//!
//! A sampler waits for a tick of a timer with a period of one hour, takes
//! one sample, and is done: it does not wait for a second tick. Only where
//! a tick brings no sample does it wait for the next one. Whoever wants
//! another sample starts another sampler.

use vstd::prelude::*;
use crate::metrics::domain::{Domain, SAMPLE_PERIOD_SECS};

verus! {

/// Where a sampler stands.
#[derive(Clone, Copy, Debug, PartialEq, Eq, Structural)]
pub enum Phase {
    /// Waiting for the timer.
    AwaitingTick,
    /// The timer fired; the sample is being taken.
    Sampling,
    /// The sample was handed out.
    Done,
}

/// What happened to a sampler.
#[derive(Clone, Copy, Debug, PartialEq, Eq, Structural)]
pub enum Event {
    /// The timer fired.
    Tick,
    /// The host gave a sample.
    Sampled,
    /// The host gave nothing to sample.
    NothingToSample,
}

/// What the caller of a sampler does next.
#[derive(Clone, Copy, Debug, PartialEq, Eq, Structural)]
pub enum Action {
    /// Wait for the next tick of a timer with this period in seconds. The
    /// first tick of a timer comes at once.
    AwaitTick(u64),
    /// Sample this domain.
    Sample(Domain),
    /// Hand the sample out and stop.
    Return,
}

/// The sampler of one domain.
#[derive(Clone, Copy, Debug, PartialEq, Eq, Structural)]
pub struct PeriodicScheduler {
    pub domain: Domain,
    pub phase: Phase,
    /// How many samples were taken.
    pub samples: u64,
}

impl PeriodicScheduler {
    /// A sampler is sound when it has handed out one sample exactly if it
    /// is done, and none before.
    pub open spec fn wf(&self) -> bool {
        self.samples == if self.phase is Done {
            1u64
        } else {
            0u64
        }
    }

    /// The sampler after `event`. An event that does not fit the phase
    /// changes nothing.
    pub open spec fn after(self, event: Event) -> PeriodicScheduler {
        match (self.phase, event) {
            (Phase::AwaitingTick, Event::Tick) => PeriodicScheduler {
                phase: Phase::Sampling,
                ..self
            },
            (Phase::Sampling, Event::Sampled) => PeriodicScheduler {
                phase: Phase::Done,
                samples: 1,
                ..self
            },
            (Phase::Sampling, Event::NothingToSample) => PeriodicScheduler {
                phase: Phase::AwaitingTick,
                ..self
            },
            _ => self,
        }
    }

    /// What the caller does while the sampler stands as it does.
    pub open spec fn pending(self) -> Action {
        match self.phase {
            Phase::AwaitingTick => Action::AwaitTick(SAMPLE_PERIOD_SECS),
            Phase::Sampling => Action::Sample(self.domain),
            Phase::Done => Action::Return,
        }
    }

    /// A sampler for `domain` that waits for its first tick.
    pub fn new(domain: Domain) -> (sampler: Self)
        ensures
            sampler == (PeriodicScheduler { domain, phase: Phase::AwaitingTick, samples: 0 }),
            sampler.wf(),
    {
        PeriodicScheduler { domain, phase: Phase::AwaitingTick, samples: 0 }
    }

    /// What the caller does next.
    pub fn action(&self) -> (action: Action)
        ensures
            action == self.pending(),
    {
        match self.phase {
            Phase::AwaitingTick => Action::AwaitTick(SAMPLE_PERIOD_SECS),
            Phase::Sampling => Action::Sample(self.domain),
            Phase::Done => Action::Return,
        }
    }

    /// Takes note of `event`.
    pub fn step(self, event: Event) -> (next: Self)
        requires
            self.wf(),
        ensures
            next == self.after(event),
            next.wf(),
    {
        match (self.phase, event) {
            (Phase::AwaitingTick, Event::Tick) => PeriodicScheduler {
                domain: self.domain,
                phase: Phase::Sampling,
                samples: self.samples,
            },
            (Phase::Sampling, Event::Sampled) => PeriodicScheduler {
                domain: self.domain,
                phase: Phase::Done,
                samples: 1,
            },
            (Phase::Sampling, Event::NothingToSample) => PeriodicScheduler {
                domain: self.domain,
                phase: Phase::AwaitingTick,
                samples: self.samples,
            },
            _ => self,
        }
    }
}

/// A sampler that is done stays done and takes no further sample, whatever
/// happens: one start gives one sample.
pub proof fn law_done_is_final(sampler: PeriodicScheduler, event: Event)
    requires
        sampler.wf(),
        sampler.phase is Done,
    ensures
        sampler.after(event) == sampler,
        sampler.after(event).pending() == Action::Return,
        sampler.after(event).samples == 1,
{
}

/// A tick followed by a sample ends a fresh sampler: it does not wait for a
/// second tick.
pub proof fn law_first_sample_ends_sampler(domain: Domain)
    ensures
        ({
            let fresh = PeriodicScheduler { domain, phase: Phase::AwaitingTick, samples: 0 };
            &&& fresh.pending() == Action::AwaitTick(SAMPLE_PERIOD_SECS)
            &&& fresh.after(Event::Tick).pending() == Action::Sample(domain)
            &&& fresh.after(Event::Tick).after(Event::Sampled).pending() == Action::Return
            &&& fresh.after(Event::Tick).after(Event::Sampled).samples == 1
        }),
{
}

} // verus!
