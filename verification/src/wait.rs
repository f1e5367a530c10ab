//! Waiting for something to become true, with a deadline.
//!
//! The caller owns the clock and the sleeping. It tries, tells
//! [`Wait::poll`] what came of the attempt and how long it has been waiting,
//! and does what the [`Step`] says: take the value, sleep and try again, or
//! give up. All times are in milliseconds.
use vstd::prelude::*;

use vstd::arithmetic::div_mod::lemma_fundamental_div_mod;
use vstd::arithmetic::div_mod::lemma_mod_bound;

verus! {

/// How long a wait lasts if nothing else is said.
pub const DEFAULT_TIMEOUT: u64 = 10_000;

/// How long a wait sleeps between two attempts if nothing else is said.
pub const DEFAULT_SLEEP: u64 = 100;

/// How to wait: the deadline, and the pause between two attempts.
#[derive(Debug, Clone, Copy, PartialEq, Eq)]
pub struct Wait {
    /// Give up once more than this time has passed.
    pub timeout: u64,
    /// Sleep this long after an attempt that failed.
    pub sleep: u64,
}

/// The wait ended without a successful attempt.
#[derive(Debug, Clone, Copy, PartialEq, Eq, Structural)]
pub struct Timeout;

/// What to do after an attempt.
#[derive(Debug, PartialEq)]
pub enum Step<T> {
    /// The attempt succeeded; this is its value.
    Done(T),
    /// Not yet. Sleep this long and try again.
    Sleep(u64),
    /// Not yet, and the deadline has passed. Give up.
    TimedOut,
}

impl<T> Step<T> {
    /// The step as the result of a finished wait; `None` while the wait goes
    /// on.
    pub fn into_result(self) -> (r: Option<Result<T, Timeout>>)
        ensures
            r == match self {
                Step::Done(value) => Some(Ok::<T, Timeout>(value)),
                Step::Sleep(_) => None,
                Step::TimedOut => Some(Err::<T, Timeout>(Timeout)),
            },
    {
        match self {
            Step::Done(value) => Some(Ok(value)),
            Step::Sleep(_) => None,
            Step::TimedOut => Some(Err(Timeout)),
        }
    }
}

impl Default for Wait {
    /// A wait of [`DEFAULT_TIMEOUT`] that tries every [`DEFAULT_SLEEP`].
    fn default() -> (r: Wait)
        ensures
            r.timeout == DEFAULT_TIMEOUT,
            r.sleep == DEFAULT_SLEEP,
    {
        Wait { timeout: DEFAULT_TIMEOUT, sleep: DEFAULT_SLEEP }
    }
}

impl Wait {
    /// A wait with the deadline and pause given.
    pub fn new(timeout: u64, sleep: u64) -> (r: Wait)
        ensures
            r.timeout == timeout,
            r.sleep == sleep,
    {
        Wait { timeout, sleep }
    }

    /// The wait with the deadline given and the default pause.
    pub open spec fn lasting(timeout: u64) -> Wait {
        Wait { timeout, sleep: DEFAULT_SLEEP }
    }

    /// A wait with the deadline given and the default pause.
    pub fn with_timeout(timeout: u64) -> (r: Wait)
        ensures
            r == Wait::lasting(timeout),
    {
        Wait { timeout, sleep: DEFAULT_SLEEP }
    }

    /// A wait with the pause given and the default deadline.
    pub fn with_sleep(sleep: u64) -> (r: Wait)
        ensures
            r.timeout == DEFAULT_TIMEOUT,
            r.sleep == sleep,
    {
        Wait { timeout: DEFAULT_TIMEOUT, sleep }
    }

    /// True where a failed attempt after `elapsed` is the last one.
    pub open spec fn gives_up(self, elapsed: nat) -> bool {
        elapsed > self.timeout
    }

    /// What to do after an attempt that ended `elapsed` after the wait
    /// began. A successful attempt ends the wait however late it is; a failed
    /// one ends it once the deadline has passed.
    pub open spec fn decide<T>(self, attempt: Option<T>, elapsed: u64) -> Step<T> {
        match attempt {
            Some(value) => Step::Done(value),
            None => if self.gives_up(elapsed as nat) {
                Step::TimedOut
            } else {
                Step::Sleep(self.sleep)
            },
        }
    }

    /// Decides what follows an attempt, as [`Wait::decide`] says.
    pub fn poll<T>(&self, attempt: Option<T>, elapsed: u64) -> (r: Step<T>)
        ensures
            r == self.decide(attempt, elapsed),
    {
        match attempt {
            Some(value) => Step::Done(value),
            None => if elapsed > self.timeout {
                Step::TimedOut
            } else {
                Step::Sleep(self.sleep)
            },
        }
    }

    /// When the attempt with the given number ends, counted from 0, in a run
    /// whose attempts take no time and whose sleeps last exactly as asked.
    pub open spec fn attempt_at(self, number: nat) -> nat {
        number * self.sleep as nat
    }

    /// The number of the attempt at which such a run gives up if no attempt
    /// succeeds.
    pub open spec fn last_attempt(self) -> nat
        recommends
            self.sleep > 0,
    {
        self.timeout as nat / self.sleep as nat + 1
    }

    /// A wait that never succeeds gives up after the deadline and within one
    /// pause of it.
    ///
    /// In a run whose attempts take no time and whose sleeps last exactly as
    /// asked, every failed attempt before [`Wait::last_attempt`] is followed
    /// by a sleep, and that attempt is the first to give up. It ends later
    /// than `timeout` and no later than `timeout + sleep`.
    pub proof fn lemma_timeout_window(self)
        requires
            self.sleep > 0,
        ensures
            forall|number: nat|
                number < self.last_attempt() ==> !self.gives_up(#[trigger] self.attempt_at(number)),
            self.gives_up(self.attempt_at(self.last_attempt())),
            self.timeout < self.attempt_at(self.last_attempt()) <= self.timeout + self.sleep,
    {
        let t = self.timeout as int;
        let s = self.sleep as int;
        let q = t / s;
        lemma_fundamental_div_mod(t, s);
        lemma_mod_bound(t, s);
        assert(self.last_attempt() == q + 1);
        assert((q + 1) * s == s * q + s) by (nonlinear_arith);
        assert(self.attempt_at(self.last_attempt()) == (q + 1) * s);
        assert forall|number: nat| number < self.last_attempt() implies !self.gives_up(
            #[trigger] self.attempt_at(number),
        ) by {
            assert(number * s <= q * s) by (nonlinear_arith)
                requires
                    0 <= number <= q,
                    s > 0,
            ;
            assert(q * s == s * q) by (nonlinear_arith);
        }
    }

    /// However the time between attempts runs: if a failed attempt was
    /// followed by a sleep, and the next failed attempt came no more than
    /// `sleep` later and gave up, then it gave up after the deadline and
    /// within one pause of it.
    pub proof fn lemma_gives_up_within_one_pause(self, previous: nat, now: nat)
        requires
            !self.gives_up(previous),
            self.gives_up(now),
            now <= previous + self.sleep,
        ensures
            self.timeout < now <= self.timeout + self.sleep,
    {
    }
}

} // verus!
