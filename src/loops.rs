//! Take-back-half, bang-bang and feedforward control laws.
use vstd::prelude::*;
use crate::numeric::{div_trunc, sat, sign, div_trunc_i128, sat_i64, GAIN_SCALE, GAIN_MAX, VALUE_MAX};
use crate::pid::gain_ok;

verus! {

/// Velocity regulation that halves back toward the output recorded at the
/// previous zero-crossing of the error whenever the error changes sign.
#[derive(Clone, Copy, Debug, PartialEq, Eq, Structural)]
pub struct TakeBackHalf {
    /// Integral gain, in thousandths.
    pub ki: i64,
    pub output: i64,
    pub tbh: i64,
    pub prev_error: i64,
}

/// Whether two errors lie on different sides of zero (zero counts as positive).
pub open spec fn crosses(prev_error: int, error: int) -> bool {
    (error < 0) != (prev_error < 0)
}

impl TakeBackHalf {
    /// The output before any halving.
    pub open spec fn accumulated(self, error: int) -> int {
        sat(self.output + div_trunc(self.ki * error, GAIN_SCALE as int))
    }

    /// The controller after one update and the output it returns.
    pub open spec fn stepped(self, measurement: int, setpoint: int) -> (TakeBackHalf, int) {
        let error = setpoint - measurement;
        let acc = self.accumulated(error);
        if crosses(self.prev_error as int, error) {
            let h = div_trunc(acc + self.tbh, 2);
            (TakeBackHalf { output: h as i64, tbh: h as i64, prev_error: error as i64, ..self }, h)
        } else {
            (TakeBackHalf { output: acc as i64, prev_error: error as i64, ..self }, acc)
        }
    }

    pub fn new(ki: i64) -> (r: TakeBackHalf)
        requires gain_ok(ki),
        ensures r == (TakeBackHalf { ki, output: 0, tbh: 0, prev_error: 0 }),
    {
        TakeBackHalf { ki, output: 0, tbh: 0, prev_error: 0 }
    }

    pub fn update(&mut self, measurement: i64, setpoint: i64, _dt: u64) -> (r: i64)
        requires
            gain_ok(old(self).ki),
            -VALUE_MAX <= measurement <= VALUE_MAX,
            -VALUE_MAX <= setpoint <= VALUE_MAX,
        ensures
            (*final(self), r as int) == old(self).stepped(measurement as int, setpoint as int),
            ({
                let error = setpoint - measurement;
                let acc = old(self).accumulated(error);
                &&& final(self).prev_error == error
                &&& final(self).ki == old(self).ki
                &&& final(self).output == r
                &&& if crosses(old(self).prev_error as int, error) {
                    r == div_trunc(acc + old(self).tbh, 2) && final(self).tbh == r
                } else {
                    r == acc && final(self).tbh == old(self).tbh
                }
            }),
    {
        let error = setpoint - measurement;
        let e = error as i128;
        let k = self.ki as i128;
        assert(-4611686018427387904 <= k * e <= 4611686018427387904) by (nonlinear_arith)
            requires -2199023255552 <= e <= 2199023255552, -1048576 <= k <= 1048576;
        let acc = sat_i64(self.output as i128 + div_trunc_i128(k * e, GAIN_SCALE as i128));
        let out = if (error < 0) != (self.prev_error < 0) {
            let halved = div_trunc_i128(acc as i128 + self.tbh as i128, 2) as i64;
            self.tbh = halved;
            halved
        } else {
            acc
        };
        self.output = out;
        self.prev_error = error;
        out
    }
}

/// Two-state control with a deadband: full output one way or the other once
/// the error leaves `[-threshold, threshold]`, and none inside it.
#[derive(Clone, Copy, Debug, PartialEq, Eq, Structural)]
pub struct BangBang {
    pub magnitude: i64,
    pub threshold: i64,
}

impl BangBang {
    /// The signal for an error.
    pub open spec fn signal(self, error: int) -> int {
        if error > self.threshold {
            self.magnitude as int
        } else if error < -self.threshold {
            -self.magnitude
        } else {
            0
        }
    }

    pub fn new(magnitude: i64, threshold: i64) -> (r: BangBang)
        ensures r == (BangBang { magnitude, threshold }),
    {
        BangBang { magnitude, threshold }
    }

    pub fn update(&mut self, measurement: i64, setpoint: i64, _dt: u64) -> (r: i64)
        requires
            old(self).magnitude > i64::MIN,
            -VALUE_MAX <= measurement <= VALUE_MAX,
            -VALUE_MAX <= setpoint <= VALUE_MAX,
        ensures
            *final(self) == *old(self),
            r == old(self).signal(setpoint - measurement),
    {
        let error = setpoint - measurement;
        if error > self.threshold {
            self.magnitude
        } else if (error as i128) < -(self.threshold as i128) {
            -self.magnitude
        } else {
            0
        }
    }
}

/// Target motion of a motor.
#[derive(Clone, Copy, Debug, PartialEq, Eq, Structural)]
pub struct MotorFeedforwardSetpoint {
    pub velocity: i64,
    pub acceleration: i64,
}

/// Target motion of an arm; `cos_angle` is the cosine of its angle above the
/// horizontal, in thousandths.
#[derive(Clone, Copy, Debug, PartialEq, Eq, Structural)]
pub struct ArmFeedforwardSetpoint {
    pub cos_angle: i64,
    pub velocity: i64,
    pub acceleration: i64,
}

/// Target motion of an elevator.
#[derive(Clone, Copy, Debug, PartialEq, Eq, Structural)]
pub struct ElevatorFeedforwardSetpoint {
    pub velocity: i64,
    pub acceleration: i64,
}

/// `ks * sign(velocity) + kv * velocity + ka * acceleration`, gains in thousandths.
#[derive(Clone, Copy, Debug, PartialEq, Eq, Structural)]
pub struct MotorFeedforward {
    pub ks: i64,
    pub kv: i64,
    pub ka: i64,
}

/// `kg * cos(angle) + kv * velocity + ka * acceleration`, gains in thousandths.
#[derive(Clone, Copy, Debug, PartialEq, Eq, Structural)]
pub struct ArmFeedforward {
    pub kg: i64,
    pub kv: i64,
    pub ka: i64,
}

/// `kg + kv * velocity + ka * acceleration`, gains in thousandths.
#[derive(Clone, Copy, Debug, PartialEq, Eq, Structural)]
pub struct ElevatorFeedforward {
    pub kg: i64,
    pub kv: i64,
    pub ka: i64,
}

pub open spec fn motion_ok(velocity: i64, acceleration: i64) -> bool {
    -VALUE_MAX <= velocity <= VALUE_MAX && -VALUE_MAX <= acceleration <= VALUE_MAX
}

proof fn lemma_term_bound(k: int, x: int)
    requires -GAIN_MAX <= k <= GAIN_MAX, -VALUE_MAX <= x <= VALUE_MAX,
    ensures -4611686018427387904 <= k * x <= 4611686018427387904,
{
    assert(-4611686018427387904 <= k * x <= 4611686018427387904) by (nonlinear_arith)
        requires -1048576 <= k <= 1048576, -1099511627776 <= x <= 1099511627776;
}

impl MotorFeedforward {
    pub open spec fn wf(self) -> bool {
        gain_ok(self.ks) && gain_ok(self.kv) && gain_ok(self.ka)
    }

    pub open spec fn signal(self, setpoint: MotorFeedforwardSetpoint) -> int {
        sat(div_trunc(
            self.ks * sign(setpoint.velocity as int) + self.kv * setpoint.velocity + self.ka * setpoint.acceleration,
            GAIN_SCALE as int,
        ))
    }

    pub fn update(&mut self, setpoint: MotorFeedforwardSetpoint, _dt: u64) -> (r: i64)
        requires
            old(self).wf(),
            motion_ok(setpoint.velocity, setpoint.acceleration),
        ensures
            *final(self) == *old(self),
            r == old(self).signal(setpoint),
    {
        let v = setpoint.velocity as i128;
        let a = setpoint.acceleration as i128;
        proof {
            lemma_term_bound(self.kv as int, v as int);
            lemma_term_bound(self.ka as int, a as int);
        }
        let s: i128 = if v > 0 { self.ks as i128 } else if v < 0 { -(self.ks as i128) } else { 0 };
        sat_i64(div_trunc_i128(s + self.kv as i128 * v + self.ka as i128 * a, GAIN_SCALE as i128))
    }
}

impl ArmFeedforward {
    pub open spec fn wf(self) -> bool {
        gain_ok(self.kg) && gain_ok(self.kv) && gain_ok(self.ka)
    }

    pub open spec fn signal(self, setpoint: ArmFeedforwardSetpoint) -> int {
        sat(div_trunc(
            self.kg * setpoint.cos_angle + GAIN_SCALE * (self.kv * setpoint.velocity + self.ka * setpoint.acceleration),
            GAIN_SCALE * GAIN_SCALE,
        ))
    }

    pub fn update(&mut self, setpoint: ArmFeedforwardSetpoint, _dt: u64) -> (r: i64)
        requires
            old(self).wf(),
            -GAIN_SCALE <= setpoint.cos_angle <= GAIN_SCALE,
            motion_ok(setpoint.velocity, setpoint.acceleration),
        ensures
            *final(self) == *old(self),
            r == old(self).signal(setpoint),
    {
        let v = setpoint.velocity as i128;
        let a = setpoint.acceleration as i128;
        proof {
            lemma_term_bound(self.kv as int, v as int);
            lemma_term_bound(self.ka as int, a as int);
            lemma_term_bound(self.kg as int, setpoint.cos_angle as int);
        }
        let gravity = self.kg as i128 * setpoint.cos_angle as i128;
        let motion = self.kv as i128 * v + self.ka as i128 * a;
        let scale = GAIN_SCALE as i128;
        sat_i64(div_trunc_i128(gravity + scale * motion, scale * scale))
    }
}

impl ElevatorFeedforward {
    pub open spec fn wf(self) -> bool {
        gain_ok(self.kg) && gain_ok(self.kv) && gain_ok(self.ka)
    }

    pub open spec fn signal(self, setpoint: ElevatorFeedforwardSetpoint) -> int {
        sat(div_trunc(self.kg + self.kv * setpoint.velocity + self.ka * setpoint.acceleration, GAIN_SCALE as int))
    }

    pub fn update(&mut self, setpoint: ElevatorFeedforwardSetpoint, _dt: u64) -> (r: i64)
        requires
            old(self).wf(),
            motion_ok(setpoint.velocity, setpoint.acceleration),
        ensures
            *final(self) == *old(self),
            r == old(self).signal(setpoint),
    {
        let v = setpoint.velocity as i128;
        let a = setpoint.acceleration as i128;
        proof {
            lemma_term_bound(self.kv as int, v as int);
            lemma_term_bound(self.ka as int, a as int);
        }
        sat_i64(div_trunc_i128(self.kg as i128 + self.kv as i128 * v + self.ka as i128 * a, GAIN_SCALE as i128))
    }
}

} // verus!
