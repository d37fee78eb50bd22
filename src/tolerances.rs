//! The termination predicate of motion commands.
use vstd::prelude::*;
use crate::numeric::{abs, abs_i64};

verus! {

/// Error and velocity thresholds that must hold, optionally for an unbroken
/// span of time, before a motion counts as settled.
#[derive(Clone, Copy, Debug, PartialEq, Eq, Structural)]
pub struct Tolerances {
    pub error_tolerance: Option<i64>,
    pub velocity_tolerance: Option<i64>,
    /// Required span of continuous satisfaction, in milliseconds.
    pub duration: Option<u64>,
    /// When the criteria began to hold without interruption, in milliseconds.
    pub satisfied_since: Option<u64>,
}

/// One tick as the tolerances see it: error, velocity and time.
pub type Sample = (int, int, u64);

impl Tolerances {
    /// The instantaneous criteria.
    pub open spec fn met(self, error: int, velocity: int) -> bool {
        &&& (self.error_tolerance matches Some(e) ==> abs(error) <= e)
        &&& (self.velocity_tolerance matches Some(v) ==> abs(velocity) <= v)
    }

    /// The state after one check and its result.
    pub open spec fn step(self, error: int, velocity: int, now: u64) -> (Tolerances, bool) {
        if !self.met(error, velocity) {
            match self.duration {
                None => (self, false),
                Some(_) => (Tolerances { satisfied_since: None, ..self }, false),
            }
        } else {
            match self.duration {
                None => (self, true),
                Some(d) => {
                    let since = match self.satisfied_since {
                        Some(s) => s,
                        None => now,
                    };
                    (Tolerances { satisfied_since: Some(since), ..self }, now - since >= d)
                },
            }
        }
    }

    pub fn new() -> (r: Tolerances)
        ensures
            r.error_tolerance is None,
            r.velocity_tolerance is None,
            r.duration is None,
            r.satisfied_since is None,
    {
        Tolerances { error_tolerance: None, velocity_tolerance: None, duration: None, satisfied_since: None }
    }

    pub fn error(self, tolerance: i64) -> (r: Tolerances)
        ensures r == (Tolerances { error_tolerance: Some(tolerance), ..self }),
    {
        Tolerances { error_tolerance: Some(tolerance), ..self }
    }

    pub fn velocity(self, tolerance: i64) -> (r: Tolerances)
        ensures r == (Tolerances { velocity_tolerance: Some(tolerance), ..self }),
    {
        Tolerances { velocity_tolerance: Some(tolerance), ..self }
    }

    pub fn duration(self, duration: u64) -> (r: Tolerances)
        ensures r == (Tolerances { duration: Some(duration), ..self }),
    {
        Tolerances { duration: Some(duration), ..self }
    }

    /// Checks the criteria at time `now` (milliseconds), once per control tick.
    pub fn check(&mut self, error: i64, velocity: i64, now: u64) -> (r: bool)
        requires
            error > i64::MIN,
            velocity > i64::MIN,
        ensures
            (*final(self), r) == old(self).step(error as int, velocity as int, now),
    {
        let error_ok = match self.error_tolerance {
            None => true,
            Some(e) => abs_i64(error) <= e,
        };
        let velocity_ok = match self.velocity_tolerance {
            None => true,
            Some(v) => abs_i64(velocity) <= v,
        };
        let met = error_ok && velocity_ok;
        match self.duration {
            None => met,
            Some(d) => {
                if !met {
                    self.satisfied_since = None;
                    false
                } else {
                    let since = match self.satisfied_since {
                        Some(s) => s,
                        None => now,
                    };
                    self.satisfied_since = Some(since);
                    now >= since && now - since >= d
                }
            },
        }
    }
}

/// The state and last result after checking each sample in turn.
pub open spec fn run(t: Tolerances, s: Seq<Sample>) -> (Tolerances, bool)
    decreases s.len(),
{
    if s.len() == 0 {
        (t, false)
    } else {
        let x = s.last();
        run(t, s.drop_last()).0.step(x.0 as int, x.1 as int, x.2)
    }
}

/// Index where the trailing run of samples that meet the criteria begins
/// (the length of `s` when the last sample does not meet them).
pub open spec fn streak_start(t: Tolerances, s: Seq<Sample>) -> int
    decreases s.len(),
{
    if s.len() == 0 {
        0
    } else if t.met(s.last().0 as int, s.last().1 as int) {
        streak_start(t, s.drop_last())
    } else {
        s.len() as int
    }
}

proof fn lemma_run_state(t: Tolerances, s: Seq<Sample>)
    requires
        t.duration is Some,
        t.satisfied_since is None,
    ensures
        0 <= streak_start(t, s) <= s.len(),
        forall|i: int| streak_start(t, s) <= i < s.len() ==> #[trigger] t.met(s[i].0 as int, s[i].1 as int),
        run(t, s).0 == (Tolerances {
            satisfied_since: if streak_start(t, s) < s.len() { Some(s[streak_start(t, s)].2) } else { None },
            ..t
        }),
    decreases s.len(),
{
    if s.len() > 0 {
        let p = s.drop_last();
        lemma_run_state(t, p);
        assert forall|i: int| streak_start(t, s) <= i < s.len() implies #[trigger] t.met(s[i].0 as int, s[i].1 as int) by {
            if i < s.len() - 1 {
                assert(s[i] == p[i]);
            }
        }
        if streak_start(t, s) < s.len() && streak_start(t, p) < p.len() {
            assert(s[streak_start(t, s)] == p[streak_start(t, p)]);
        }
    }
}

/// A check with a duration succeeds only after the criteria held on every
/// tick of an unbroken streak spanning at least that duration: a single
/// violating tick restarts the timer.
pub proof fn lemma_tolerances_continuity(t: Tolerances, s: Seq<Sample>)
    requires
        t.duration is Some,
        t.satisfied_since is None,
        run(t, s).1,
    ensures
        0 <= streak_start(t, s) < s.len(),
        forall|i: int| streak_start(t, s) <= i < s.len() ==> #[trigger] t.met(s[i].0 as int, s[i].1 as int),
        s.last().2 - s[streak_start(t, s)].2 >= t.duration.unwrap(),
{
    lemma_run_state(t, s);
    lemma_run_state(t, s.drop_last());
    let p = s.drop_last();
    if streak_start(t, p) < p.len() {
        assert(s[streak_start(t, s)] == p[streak_start(t, p)]);
    }
}

} // verus!
