//! The clock: repeating timers in simulated time, which decide on each
//! physics tick which of the slower rules are due.

use vstd::prelude::*;
use crate::config::MODERATE;
use crate::fixed::LIMIT;

verus! {

/// A repeating timer: it fires whenever the time it has gathered reaches its period.
#[derive(Clone, Copy, Debug, PartialEq, Eq, Structural)]
pub struct Timer {
    pub period: i64,
    pub elapsed: i64,
}

/// The timers of the slower rules.
#[derive(Clone, Copy, Debug, PartialEq, Eq, Structural)]
pub struct Clock {
    pub food: Timer,
    pub sensory: Timer,
    pub age: Timer,
    pub metabolism: Timer,
    pub log: Timer,
}

/// Which of the slower rules are due on a tick.
#[derive(Clone, Copy, Debug, PartialEq, Eq, Structural)]
pub struct Due {
    pub food: bool,
    pub sensory: bool,
    pub age: bool,
    pub metabolism: bool,
    pub log: bool,
}

impl Timer {
    /// The period is positive and the time gathered has not reached it.
    pub open spec fn wf(&self) -> bool {
        0 <= self.elapsed < self.period <= LIMIT
    }

    /// Whether the timer fires once `delta` more has passed.
    pub open spec fn fires(&self, delta: int) -> bool {
        self.elapsed + delta >= self.period
    }

    /// The timer once `delta` more has passed: what it has gathered beyond
    /// whole periods stays.
    pub open spec fn ticked(&self, delta: int) -> Timer {
        Timer { period: self.period, elapsed: ((self.elapsed + delta) % (self.period as int)) as i64 }
    }

    /// A timer of the given period that has gathered nothing, or none
    /// where the period is not positive or too long.
    pub fn new(period: i64) -> (r: Option<Timer>)
        ensures
            r is Some <==> 0 < period <= LIMIT,
            r is Some ==> r.unwrap() == (Timer { period, elapsed: 0 }) && r.unwrap().wf(),
    {
        if 0 < period && period <= LIMIT {
            Some(Timer { period, elapsed: 0 })
        } else {
            None
        }
    }

    /// Lets `delta` pass, and tells whether the timer fires.
    pub fn tick(&mut self, delta: i64) -> (fired: bool)
        requires
            old(self).wf(),
            0 <= delta <= MODERATE,
        ensures
            fired == old(self).fires(delta as int),
            *final(self) == old(self).ticked(delta as int),
            final(self).wf(),
    {
        let total: i64 = self.elapsed + delta;
        self.elapsed = total % self.period;
        total >= self.period
    }
}

impl Clock {
    /// Every timer is well formed.
    pub open spec fn wf(&self) -> bool {
        &&& self.food.wf()
        &&& self.sensory.wf()
        &&& self.age.wf()
        &&& self.metabolism.wf()
        &&& self.log.wf()
    }

    /// Which rules are due once `delta` more has passed.
    pub open spec fn due(&self, delta: int) -> Due {
        Due {
            food: self.food.fires(delta),
            sensory: self.sensory.fires(delta),
            age: self.age.fires(delta),
            metabolism: self.metabolism.fires(delta),
            log: self.log.fires(delta),
        }
    }

    /// The clock once `delta` more has passed.
    pub open spec fn ticked(&self, delta: int) -> Clock {
        Clock {
            food: self.food.ticked(delta),
            sensory: self.sensory.ticked(delta),
            age: self.age.ticked(delta),
            metabolism: self.metabolism.ticked(delta),
            log: self.log.ticked(delta),
        }
    }

    /// Tells whether every timer is well formed.
    pub fn is_valid(&self) -> (r: bool)
        ensures
            r == self.wf(),
    {
        0 <= self.food.elapsed && self.food.elapsed < self.food.period && self.food.period
            <= LIMIT && 0 <= self.sensory.elapsed && self.sensory.elapsed < self.sensory.period
            && self.sensory.period <= LIMIT && 0 <= self.age.elapsed && self.age.elapsed
            < self.age.period && self.age.period <= LIMIT && 0 <= self.metabolism.elapsed
            && self.metabolism.elapsed < self.metabolism.period && self.metabolism.period
            <= LIMIT && 0 <= self.log.elapsed && self.log.elapsed < self.log.period
            && self.log.period <= LIMIT
    }

    /// Lets `delta` pass on every timer, and tells which rules are due.
    pub fn tick(&mut self, delta: i64) -> (due: Due)
        requires
            old(self).wf(),
            0 <= delta <= MODERATE,
        ensures
            due == old(self).due(delta as int),
            *final(self) == old(self).ticked(delta as int),
            final(self).wf(),
    {
        let food = self.food.tick(delta);
        let sensory = self.sensory.tick(delta);
        let age = self.age.tick(delta);
        let metabolism = self.metabolism.tick(delta);
        let log = self.log.tick(delta);
        Due { food, sensory, age, metabolism, log }
    }
}

impl Default for Clock {
    /// The usual cadences, in simulated seconds: food every fifth of a
    /// second, senses every half second, ageing and metabolism every
    /// second, the log every ten seconds.
    fn default() -> (r: Clock)
        ensures
            r.wf(),
            r.food == (Timer { period: 200_000_000, elapsed: 0 }),
            r.sensory == (Timer { period: 500_000_000, elapsed: 0 }),
            r.age == (Timer { period: 1_000_000_000, elapsed: 0 }),
            r.metabolism == (Timer { period: 1_000_000_000, elapsed: 0 }),
            r.log == (Timer { period: 10_000_000_000, elapsed: 0 }),
    {
        Clock {
            food: Timer { period: 200_000_000, elapsed: 0 },
            sensory: Timer { period: 500_000_000, elapsed: 0 },
            age: Timer { period: 1_000_000_000, elapsed: 0 },
            metabolism: Timer { period: 1_000_000_000, elapsed: 0 },
            log: Timer { period: 10_000_000_000, elapsed: 0 },
        }
    }
}

} // verus!
