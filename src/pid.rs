//! Proportional-integral-derivative feedback, linear and angular.
use vstd::prelude::*;
use crate::numeric::{abs, div_trunc, sat, clamp_sym, abs_i64, div_trunc_i128, sat_i64, clamp_i64, lemma_div_trunc_bound, GAIN_SCALE, GAIN_MAX, VALUE_MAX, DT_MAX};
use crate::angle::{Angle, HALF_TURN, wrap_half};

verus! {

/// A PID controller with an optional anti-windup gate on the integral and an
/// optional clamp on its output. Gains are in thousandths, time in milliseconds.
#[derive(Clone, Copy, Debug, PartialEq, Eq, Structural)]
pub struct Pid {
    pub kp: i64,
    pub ki: i64,
    pub kd: i64,
    pub integral: i64,
    pub prev_error: i64,
    pub integration_range: Option<i64>,
    pub output_limit: Option<i64>,
}

pub open spec fn gain_ok(k: i64) -> bool {
    -GAIN_MAX <= k <= GAIN_MAX
}

impl Pid {
    pub open spec fn wf(self) -> bool {
        &&& gain_ok(self.kp)
        &&& gain_ok(self.ki)
        &&& gain_ok(self.kd)
        &&& -2 * VALUE_MAX <= self.prev_error <= 2 * VALUE_MAX
        &&& (self.output_limit matches Some(l) ==> l >= 0)
    }

    /// Whether the integral accumulates for this error.
    pub open spec fn integrates(self, error: int) -> bool {
        self.integration_range matches Some(r) ==> abs(error) <= r
    }

    pub open spec fn next_integral(self, error: int, dt: int) -> int {
        if self.integrates(error) { sat(self.integral + error * dt) } else { self.integral as int }
    }

    /// The clamped signal for the given integral, error, change of error and timestep.
    pub open spec fn signal(self, integral: int, error: int, change: int, dt: int) -> int {
        let raw = sat(div_trunc(
            self.kp * error + self.ki * integral + div_trunc(self.kd * change, dt),
            GAIN_SCALE as int,
        ));
        match self.output_limit {
            None => raw,
            Some(l) => clamp_sym(raw, l as int),
        }
    }

    /// The controller after one `update` and the signal it returns.
    pub open spec fn stepped(self, measurement: int, setpoint: int, dt: int) -> (Pid, int) {
        let error = setpoint - measurement;
        let next = Pid { integral: self.next_integral(error, dt) as i64, prev_error: error as i64, ..self };
        (next, self.signal(next.integral as int, error, error - self.prev_error, dt))
    }

    pub fn new(kp: i64, ki: i64, kd: i64, integration_range: Option<i64>, output_limit: Option<i64>) -> (r: Pid)
        requires
            gain_ok(kp),
            gain_ok(ki),
            gain_ok(kd),
            output_limit matches Some(l) ==> l >= 0,
        ensures
            r.wf(),
            r == (Pid { kp, ki, kd, integral: 0, prev_error: 0, integration_range, output_limit }),
    {
        Pid { kp, ki, kd, integral: 0, prev_error: 0, integration_range, output_limit }
    }

    /// One step from an error and its change since the previous step.
    pub fn advance(&mut self, error: i64, change: i64, dt: u64) -> (r: i64)
        requires
            old(self).wf(),
            -2 * VALUE_MAX <= error <= 2 * VALUE_MAX,
            -4 * VALUE_MAX <= change <= 4 * VALUE_MAX,
            1 <= dt <= DT_MAX,
        ensures
            final(self).wf(),
            *final(self) == (Pid {
                integral: old(self).next_integral(error as int, dt as int) as i64,
                prev_error: error,
                ..*old(self)
            }),
            r == old(self).signal(final(self).integral as int, error as int, change as int, dt as int),
            old(self).output_limit matches Some(l) ==> -l <= r <= l,
            (old(self).integration_range matches Some(g) && abs(error as int) > g)
                ==> final(self).integral == old(self).integral,
    {
        let e = error as i128;
        let t = dt as i128;
        assert(-4611686018427387904 <= e * t <= 4611686018427387904) by (nonlinear_arith)
            requires -2199023255552 <= e <= 2199023255552, 1 <= t <= 1048576;
        let gate = match self.integration_range {
            None => true,
            Some(g) => {
                proof { assert(error > i64::MIN); }
                abs_i64(error) <= g
            },
        };
        if gate {
            self.integral = sat_i64(self.integral as i128 + e * t);
        }
        let kp = self.kp as i128;
        let ki = self.ki as i128;
        let kd = self.kd as i128;
        let c = change as i128;
        assert(-4611686018427387904 <= kd * c <= 4611686018427387904) by (nonlinear_arith)
            requires -4398046511104 <= c <= 4398046511104, -1048576 <= kd <= 1048576;
        let derivative = div_trunc_i128(kd * c, t);
        proof {
            lemma_div_trunc_bound(kd * c, t as int, 4611686018427387904);
        }
        let i = self.integral as i128;
        assert(-4611686018427387904 <= kp * e <= 4611686018427387904) by (nonlinear_arith)
            requires -2199023255552 <= e <= 2199023255552, -1048576 <= kp <= 1048576;
        assert(-19342813113834066795298816 <= ki * i <= 19342813113834066795298816) by (nonlinear_arith)
            requires -9223372036854775808 <= i <= 9223372036854775807, -1048576 <= ki <= 1048576;
        let raw = sat_i64(div_trunc_i128(kp * e + ki * i + derivative, GAIN_SCALE as i128));
        self.prev_error = error;
        match self.output_limit {
            None => raw,
            Some(l) => clamp_i64(raw, l),
        }
    }

    /// One control step: error is `setpoint - measurement`.
    pub fn update(&mut self, measurement: i64, setpoint: i64, dt: u64) -> (r: i64)
        requires
            old(self).wf(),
            -VALUE_MAX <= measurement <= VALUE_MAX,
            -VALUE_MAX <= setpoint <= VALUE_MAX,
            1 <= dt <= DT_MAX,
        ensures
            final(self).wf(),
            (*final(self), r as int) == old(self).stepped(measurement as int, setpoint as int, dt as int),
            ({
                let error = setpoint - measurement;
                &&& *final(self) == (Pid {
                    integral: old(self).next_integral(error, dt as int) as i64,
                    prev_error: error as i64,
                    ..*old(self)
                })
                &&& r == old(self).signal(final(self).integral as int, error, error - old(self).prev_error, dt as int)
            }),
            old(self).output_limit matches Some(l) ==> -l <= r <= l,
            (old(self).integration_range matches Some(g) && abs(setpoint - measurement) > g)
                ==> final(self).integral == old(self).integral,
    {
        let error = setpoint - measurement;
        let change = error - self.prev_error;
        self.advance(error, change, dt)
    }

    pub fn set_gains(&mut self, kp: i64, ki: i64, kd: i64)
        requires gain_ok(kp), gain_ok(ki), gain_ok(kd),
        ensures *final(self) == (Pid { kp, ki, kd, ..*old(self) }),
    {
        self.kp = kp;
        self.ki = ki;
        self.kd = kd;
    }

    pub fn set_kp(&mut self, kp: i64)
        requires gain_ok(kp),
        ensures *final(self) == (Pid { kp, ..*old(self) }),
    {
        self.kp = kp;
    }

    pub fn set_ki(&mut self, ki: i64)
        requires gain_ok(ki),
        ensures *final(self) == (Pid { ki, ..*old(self) }),
    {
        self.ki = ki;
    }

    pub fn set_kd(&mut self, kd: i64)
        requires gain_ok(kd),
        ensures *final(self) == (Pid { kd, ..*old(self) }),
    {
        self.kd = kd;
    }

    pub fn set_integration_range(&mut self, range: Option<i64>)
        ensures *final(self) == (Pid { integration_range: range, ..*old(self) }),
    {
        self.integration_range = range;
    }

    pub fn set_output_limit(&mut self, limit: Option<i64>)
        requires limit matches Some(l) ==> l >= 0,
        ensures *final(self) == (Pid { output_limit: limit, ..*old(self) }),
    {
        self.output_limit = limit;
    }
}

/// The controller after an update on each (measurement, setpoint) pair in turn.
pub open spec fn run_updates(p: Pid, samples: Seq<(int, int)>, dt: int) -> Pid
    decreases samples.len(),
{
    if samples.len() == 0 {
        p
    } else {
        let x = samples.last();
        run_updates(p, samples.drop_last(), dt).stepped(x.0, x.1, dt).0
    }
}

/// Anti-windup: across any run of updates whose every error lies outside the
/// integration range, the integral does not move.
pub proof fn lemma_integral_frozen(p: Pid, samples: Seq<(int, int)>, dt: int)
    requires
        p.integration_range is Some,
        forall|i: int| 0 <= i < samples.len()
            ==> abs(#[trigger] samples[i].1 - samples[i].0) > p.integration_range.unwrap(),
    ensures
        run_updates(p, samples, dt).integral == p.integral,
        run_updates(p, samples, dt).integration_range == p.integration_range,
    decreases samples.len(),
{
    if samples.len() > 0 {
        let q = samples.drop_last();
        assert forall|i: int| 0 <= i < q.len() implies abs(#[trigger] q[i].1 - q[i].0) > p.integration_range.unwrap() by {
            assert(q[i] == samples[i]);
        }
        lemma_integral_frozen(p, q, dt);
        let last = samples[samples.len() - 1];
        assert(abs(last.1 - last.0) > p.integration_range.unwrap());
    }
}

/// A PID controller on angles: the error and its change are both taken the
/// short way round, so a setpoint across the 0/360° seam causes no jump.
#[derive(Clone, Copy, Debug, PartialEq, Eq, Structural)]
pub struct AngularPid {
    pub inner: Pid,
}

impl AngularPid {
    pub open spec fn wf(self) -> bool {
        self.inner.wf()
    }

    pub fn new(kp: i64, ki: i64, kd: i64, integration_range: Option<i64>, output_limit: Option<i64>) -> (r: AngularPid)
        requires
            gain_ok(kp),
            gain_ok(ki),
            gain_ok(kd),
            output_limit matches Some(l) ==> l >= 0,
        ensures
            r.wf(),
            r.inner == (Pid { kp, ki, kd, integral: 0, prev_error: 0, integration_range, output_limit }),
    {
        AngularPid { inner: Pid::new(kp, ki, kd, integration_range, output_limit) }
    }

    /// One control step: error is the shortest signed angle from `measurement`
    /// to `setpoint`, in millidegrees.
    pub fn update(&mut self, measurement: Angle, setpoint: Angle, dt: u64) -> (r: i64)
        requires
            old(self).wf(),
            -VALUE_MAX <= measurement@ <= VALUE_MAX,
            -VALUE_MAX <= setpoint@ <= VALUE_MAX,
            1 <= dt <= DT_MAX,
        ensures
            final(self).wf(),
            ({
                let error = wrap_half(setpoint@ - measurement@);
                let change = wrap_half(error - old(self).inner.prev_error);
                &&& -HALF_TURN < error <= HALF_TURN
                &&& final(self).inner == (Pid {
                    integral: old(self).inner.next_integral(error, dt as int) as i64,
                    prev_error: error as i64,
                    ..old(self).inner
                })
                &&& r == old(self).inner.signal(final(self).inner.integral as int, error, change, dt as int)
            }),
            old(self).inner.output_limit matches Some(l) ==> -l <= r <= l,
    {
        let error = setpoint.minus(&measurement).wrapped_half();
        let e = error.as_millidegrees();
        let change = Angle::from_millidegrees(e - self.inner.prev_error).wrapped_half();
        self.inner.advance(e, change.as_millidegrees(), dt)
    }

    pub fn set_gains(&mut self, kp: i64, ki: i64, kd: i64)
        requires gain_ok(kp), gain_ok(ki), gain_ok(kd),
        ensures final(self).inner == (Pid { kp, ki, kd, ..old(self).inner }),
    {
        self.inner.set_gains(kp, ki, kd);
    }

    pub fn set_integration_range(&mut self, range: Option<i64>)
        ensures final(self).inner == (Pid { integration_range: range, ..old(self).inner }),
    {
        self.inner.set_integration_range(range);
    }

    pub fn set_output_limit(&mut self, limit: Option<i64>)
        requires limit matches Some(l) ==> l >= 0,
        ensures final(self).inner == (Pid { output_limit: limit, ..old(self).inner }),
    {
        self.inner.set_output_limit(limit);
    }
}

} // verus!
