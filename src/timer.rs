use vstd::prelude::*;

verus! {

/// A countdown over microseconds. A one-shot countdown stays finished, with its
/// elapsed time held at the duration, until it is reset; a repeating one wraps
/// its elapsed time around the duration each time it finishes.
#[derive(Clone, Copy, Debug, PartialEq, Eq, Structural)]
pub struct Countdown {
    pub duration: u64,
    pub elapsed: u64,
    pub repeating: bool,
    pub finished: bool,
}

impl Countdown {
    pub open spec fn wf(self) -> bool {
        &&& self.elapsed <= self.duration
        &&& self.repeating && self.duration > 0 ==> self.elapsed < self.duration
    }

    /// The countdown after `dt` more microseconds.
    pub open spec fn ticked(self, dt: int) -> Countdown {
        if !self.repeating && self.finished {
            self
        } else {
            let e = self.elapsed + dt;
            if e >= self.duration {
                Countdown {
                    elapsed: if !self.repeating {
                        self.duration
                    } else if self.duration == 0 {
                        0
                    } else {
                        (e % (self.duration as int)) as u64
                    },
                    finished: true,
                    ..self
                }
            } else {
                Countdown { elapsed: e as u64, finished: false, ..self }
            }
        }
    }

    pub open spec fn new_spec(duration: u64, repeating: bool) -> Countdown {
        Countdown { duration, elapsed: 0, repeating, finished: false }
    }

    /// A countdown of `duration` microseconds that has not started.
    pub fn new(duration: u64, repeating: bool) -> (r: Countdown)
        ensures
            r == Countdown::new_spec(duration, repeating),
            r.wf(),
    {
        Countdown { duration, elapsed: 0, repeating, finished: false }
    }

    /// Advances by `dt` microseconds and tells whether the countdown has finished.
    pub fn tick(&mut self, dt: u64) -> (r: bool)
        requires
            old(self).wf(),
            old(self).duration + dt <= u64::MAX,
        ensures
            *final(self) == old(self).ticked(dt as int),
            final(self).wf(),
            r == final(self).finished,
    {
        if !self.repeating && self.finished {
            return true;
        }
        let e: u64 = self.elapsed + dt;
        if e >= self.duration {
            self.elapsed = if !self.repeating {
                self.duration
            } else if self.duration == 0 {
                0
            } else {
                e % self.duration
            };
            self.finished = true;
        } else {
            self.elapsed = e;
            self.finished = false;
        }
        self.finished
    }

    /// Whether the countdown finished at its last tick (and, when one-shot,
    /// has not been reset since).
    pub fn is_finished(&self) -> (r: bool)
        ensures
            r == self.finished,
    {
        self.finished
    }

    /// Starts the countdown over.
    pub fn reset(&mut self)
        ensures
            *final(self) == (Countdown { elapsed: 0, finished: false, ..*old(self) }),
            final(self).wf(),
    {
        self.elapsed = 0;
        self.finished = false;
    }
}

} // verus!
