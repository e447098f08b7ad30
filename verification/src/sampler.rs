//! Random retry sampler: repeated random draws toward a new playable leaf,
//! rejecting the current one and failed constructions, up to a fixed budget.

use vstd::prelude::*;

verus! {

/// How many rejected attempts one random search tolerates.
pub const MAX_ATTEMPTS: u8 = 10;

/// The model of a sampler.
pub ghost struct SamplerModel {
    pub dir_count: int,
    pub attempts: int,
}

/// One random search: an estimate of the directory count, computed once per
/// session, and a rejected-attempt counter capped at `MAX_ATTEMPTS`.
pub struct RandomSampler {
    dir_count: usize,
    attempts: u8,
}

impl View for RandomSampler {
    type V = SamplerModel;

    closed spec fn view(&self) -> SamplerModel {
        SamplerModel { dir_count: self.dir_count as int, attempts: self.attempts as int }
    }
}

/// What one resolution attempt reported back: the drawn path equalled the
/// currently active one, the session could not be built, or it was built.
#[derive(Clone, Copy, Debug, PartialEq, Eq, Structural)]
pub enum SampleEvent {
    SameAsCurrent,
    BuildFailed,
    Built,
}

/// What the sampler decides next: activate the built session, draw again,
/// or stop silently with the current view untouched.
#[derive(Clone, Copy, Debug, PartialEq, Eq, Structural)]
pub enum SampleAction {
    Accept,
    Continue,
    GiveUp,
}

impl RandomSampler {
    pub open spec fn wf(&self) -> bool {
        0 <= self@.attempts <= MAX_ATTEMPTS
    }

    pub fn new(dir_count: usize) -> (r: Self)
        ensures
            r.wf(),
            r@ == (SamplerModel { dir_count: dir_count as int, attempts: 0 }),
    {
        RandomSampler { dir_count, attempts: 0 }
    }

    pub fn dir_count(&self) -> (r: usize)
        ensures
            r as int == self@.dir_count,
    {
        self.dir_count
    }

    pub fn attempts(&self) -> (r: u8)
        ensures
            r as int == self@.attempts,
    {
        self.attempts
    }

    /// Whether the budget is exhausted.
    pub fn done(&self) -> (r: bool)
        ensures
            r == (self@.attempts == MAX_ATTEMPTS as int),
    {
        self.attempts == MAX_ATTEMPTS
    }

    /// Feeds one attempt's outcome: a built session is accepted at once; a
    /// collision with the current leaf or a failed construction is one more
    /// rejected attempt, and the tenth rejection gives up.
    pub fn step(&mut self, ev: SampleEvent) -> (r: SampleAction)
        requires
            old(self).wf(),
            old(self)@.attempts < MAX_ATTEMPTS as int,
        ensures
            final(self).wf(),
            match ev {
                SampleEvent::Built => r == SampleAction::Accept && final(self)@ == old(self)@,
                _ => final(self)@ == (SamplerModel {
                    attempts: old(self)@.attempts + 1,
                    ..old(self)@
                }) && r == if old(self)@.attempts + 1 == MAX_ATTEMPTS as int {
                    SampleAction::GiveUp
                } else {
                    SampleAction::Continue
                },
            },
    {
        match ev {
            SampleEvent::Built => SampleAction::Accept,
            _ => {
                self.attempts = self.attempts + 1;
                if self.attempts == MAX_ATTEMPTS {
                    SampleAction::GiveUp
                } else {
                    SampleAction::Continue
                }
            },
        }
    }
}

} // verus!
