//! The contracts that control loops offer to the motions holding them.
use vstd::prelude::*;
use crate::numeric::{VALUE_MAX, DT_MAX};
use crate::pid::Pid;
use crate::loops::{
    TakeBackHalf, BangBang, MotorFeedforward, MotorFeedforwardSetpoint, ArmFeedforward, ArmFeedforwardSetpoint,
    ElevatorFeedforward, ElevatorFeedforwardSetpoint, motion_ok,
};
use crate::numeric::GAIN_SCALE;

verus! {

/// Feedback ("closed-loop") controller on scalar states and signals.
pub trait Feedback: Sized {
    /// Whether the controller's configuration is usable.
    spec fn ready(&self) -> bool;

    /// The controller after one update and the signal it returns.
    spec fn advanced(&self, measurement: int, setpoint: int, dt: int) -> (Self, int);

    /// Produces a control signal from a measurement and a setpoint.
    fn update(&mut self, measurement: i64, setpoint: i64, dt: u64) -> (r: i64)
        requires
            old(self).ready(),
            -VALUE_MAX <= measurement <= VALUE_MAX,
            -VALUE_MAX <= setpoint <= VALUE_MAX,
            1 <= dt <= DT_MAX,
        ensures
            final(self).ready(),
            (*final(self), r as int) == old(self).advanced(measurement as int, setpoint as int, dt as int),
    ;
}

impl Feedback for Pid {
    open spec fn ready(&self) -> bool {
        self.wf()
    }

    open spec fn advanced(&self, measurement: int, setpoint: int, dt: int) -> (Pid, int) {
        self.stepped(measurement, setpoint, dt)
    }

    fn update(&mut self, measurement: i64, setpoint: i64, dt: u64) -> (r: i64) {
        Pid::update(self, measurement, setpoint, dt)
    }
}

impl Feedback for TakeBackHalf {
    open spec fn ready(&self) -> bool {
        crate::pid::gain_ok(self.ki)
    }

    open spec fn advanced(&self, measurement: int, setpoint: int, dt: int) -> (TakeBackHalf, int) {
        self.stepped(measurement, setpoint)
    }

    fn update(&mut self, measurement: i64, setpoint: i64, dt: u64) -> (r: i64) {
        TakeBackHalf::update(self, measurement, setpoint, dt)
    }
}

impl Feedback for BangBang {
    open spec fn ready(&self) -> bool {
        self.magnitude > i64::MIN
    }

    open spec fn advanced(&self, measurement: int, setpoint: int, dt: int) -> (BangBang, int) {
        (*self, self.signal(setpoint - measurement))
    }

    fn update(&mut self, measurement: i64, setpoint: i64, dt: u64) -> (r: i64) {
        BangBang::update(self, measurement, setpoint, dt)
    }
}

/// Feedforward ("open-loop") controller: a pure function of its gains and
/// the setpoint.
pub trait Feedforward: Sized {
    /// Representation of the system's target state.
    type State;

    /// Whether the controller can handle this setpoint.
    spec fn accepts(&self, setpoint: Self::State) -> bool;

    /// The signal for a setpoint.
    spec fn signal_for(&self, setpoint: Self::State) -> int;

    fn update(&mut self, setpoint: Self::State, dt: u64) -> (r: i64)
        requires
            old(self).accepts(setpoint),
        ensures
            *final(self) == *old(self),
            r == old(self).signal_for(setpoint),
    ;
}

impl Feedforward for MotorFeedforward {
    type State = MotorFeedforwardSetpoint;

    open spec fn accepts(&self, setpoint: MotorFeedforwardSetpoint) -> bool {
        self.wf() && motion_ok(setpoint.velocity, setpoint.acceleration)
    }

    open spec fn signal_for(&self, setpoint: MotorFeedforwardSetpoint) -> int {
        self.signal(setpoint)
    }

    fn update(&mut self, setpoint: MotorFeedforwardSetpoint, dt: u64) -> (r: i64) {
        MotorFeedforward::update(self, setpoint, dt)
    }
}

impl Feedforward for ArmFeedforward {
    type State = ArmFeedforwardSetpoint;

    open spec fn accepts(&self, setpoint: ArmFeedforwardSetpoint) -> bool {
        &&& self.wf()
        &&& -GAIN_SCALE <= setpoint.cos_angle <= GAIN_SCALE
        &&& motion_ok(setpoint.velocity, setpoint.acceleration)
    }

    open spec fn signal_for(&self, setpoint: ArmFeedforwardSetpoint) -> int {
        self.signal(setpoint)
    }

    fn update(&mut self, setpoint: ArmFeedforwardSetpoint, dt: u64) -> (r: i64) {
        ArmFeedforward::update(self, setpoint, dt)
    }
}

impl Feedforward for ElevatorFeedforward {
    type State = ElevatorFeedforwardSetpoint;

    open spec fn accepts(&self, setpoint: ElevatorFeedforwardSetpoint) -> bool {
        self.wf() && motion_ok(setpoint.velocity, setpoint.acceleration)
    }

    open spec fn signal_for(&self, setpoint: ElevatorFeedforwardSetpoint) -> int {
        self.signal(setpoint)
    }

    fn update(&mut self, setpoint: ElevatorFeedforwardSetpoint, dt: u64) -> (r: i64) {
        ElevatorFeedforward::update(self, setpoint, dt)
    }
}

} // verus!
