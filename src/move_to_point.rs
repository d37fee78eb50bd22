//! Driving to a point with two seeking feedback controllers.
//!
//! The motion is a state machine: each tick takes a tracking sample and
//! returns the action to perform, so that whoever owns the drivetrain and the
//! timer runs the loop.
use vstd::prelude::*;
use crate::numeric::{
    abs, div_trunc, clamp_sym, clamp_i64, div_trunc_i128, lemma_div_trunc_bound, lemma_div_trunc_scaled, DRIVE_MAX, DT_MAX,
};
use crate::geometry::{Vec2, floor_sqrt, lemma_floor_sqrt};
use crate::pid::{Pid, gain_ok};
use crate::feedback::Feedback;
use crate::tolerances::{Tolerances, Sample, run, streak_start, lemma_tolerances_continuity};

verus! {

/// Scale of the heading's unit vector: a component of `10_000` stands for 1.
pub const HEADING_SCALE: i64 = 10_000;

/// Period at which the motion wants to be ticked, in milliseconds.
pub const TICK_MS: u64 = 5;

/// What the tracking estimator reports on one tick.
#[derive(Clone, Copy, Debug, PartialEq, Eq, Structural)]
pub struct TrackingSample {
    pub position: Vec2,
    /// Cosine of the heading, scaled by [`HEADING_SCALE`].
    pub heading_cos: i64,
    /// Sine of the heading, scaled by [`HEADING_SCALE`].
    pub heading_sin: i64,
    pub linear_velocity: i64,
    /// Time of the sample, in milliseconds.
    pub now: u64,
}

impl TrackingSample {
    pub open spec fn wf(self) -> bool {
        &&& self.position.in_field()
        &&& -HEADING_SCALE <= self.heading_cos <= HEADING_SCALE
        &&& -HEADING_SCALE <= self.heading_sin <= HEADING_SCALE
        &&& self.linear_velocity > i64::MIN
    }
}

/// What the drivetrain owner does after a tick.
#[derive(Clone, Copy, Debug, PartialEq, Eq, Structural)]
pub enum SeekAction {
    /// Nothing yet: tick again after [`TICK_MS`].
    Wait,
    /// Drive arcade-style, then tick again after [`TICK_MS`].
    Drive { throttle: i64, steer: i64 },
    /// Drive with zero throttle and steering; the motion is complete.
    Stop,
}

/// Moves the robot to a point using two seeking feedback controllers.
#[derive(Clone, Copy, Debug)]
pub struct MoveToPointFuture<L: Feedback, A: Feedback> {
    pub target_point: Vec2,
    /// Whether the motion was asked to approach backwards. The pursuit law
    /// already backs toward a target behind the robot and does not read it.
    pub reverse: bool,
    /// Longest run time, in milliseconds, measured from the first tick.
    pub timeout: Option<u64>,
    pub tolerances: Tolerances,
    pub linear_controller: L,
    pub lateral_controller: A,
    pub start_time: Option<u64>,
    pub prev_time: Option<u64>,
}

/// Milliseconds since the previous tick, kept in `[1, DT_MAX]`.
pub open spec fn timestep(prev: u64, now: u64) -> int {
    let e = now - prev;
    if e < 1 { 1 } else if e > DT_MAX { DT_MAX as int } else { e }
}

pub open spec fn timed_out(timeout: Option<u64>, start: u64, now: u64) -> bool {
    timeout matches Some(t) && now - start > t
}

impl<L: Feedback, A: Feedback> MoveToPointFuture<L, A> {
    pub open spec fn wf(self) -> bool {
        &&& self.target_point.in_field()
        &&& self.linear_controller.ready()
        &&& self.lateral_controller.ready()
        &&& (self.start_time is Some <==> self.prev_time is Some)
    }

    /// Offset from the robot to the target, x then y.
    pub open spec fn offset(self, s: TrackingSample) -> (int, int) {
        (self.target_point.x - s.position.x, self.target_point.y - s.position.y)
    }

    /// Distance to the target, rounded down.
    pub open spec fn distance(self, s: TrackingSample) -> int {
        let (dx, dy) = self.offset(s);
        floor_sqrt(dx * dx + dy * dy)
    }

    /// Distance to the target times the sine of the heading error, scaled.
    pub open spec fn cross(self, s: TrackingSample) -> int {
        let (dx, dy) = self.offset(s);
        s.heading_sin * dx - s.heading_cos * dy
    }

    /// Distance to the target times the cosine of the heading error, scaled:
    /// negative when the target lies behind the robot.
    pub open spec fn dot(self, s: TrackingSample) -> int {
        let (dx, dy) = self.offset(s);
        s.heading_cos * dx + s.heading_sin * dy
    }

    /// Cross-track error, negated when the target lies behind the robot.
    pub open spec fn cross_track(self, s: TrackingSample) -> int {
        let c = div_trunc(self.cross(s), HEADING_SCALE as int);
        if self.dot(s) < 0 { -c } else { c }
    }

    /// Distance error, negated when the target lies behind the robot.
    pub open spec fn signed_distance(self, s: TrackingSample) -> int {
        if self.dot(s) < 0 { -self.distance(s) } else { self.distance(s) }
    }

    /// The absolute cosine of the heading error as a fraction, numerator then
    /// denominator, capped at one: rounding the distance down and the heading
    /// into integers could otherwise push it above one.
    pub open spec fn taper(self, s: TrackingSample) -> (int, int) {
        let d = self.distance(s);
        if d == 0 {
            (abs(s.heading_cos as int), HEADING_SCALE as int)
        } else {
            let den = HEADING_SCALE * d;
            (if abs(self.dot(s)) < den { abs(self.dot(s)) } else { den }, den)
        }
    }

    /// The linear controller's signal tapered by the cosine of the heading
    /// error, within the drive range.
    pub open spec fn tapered(self, s: TrackingSample, raw: int) -> int {
        let (num, den) = self.taper(s);
        clamp_sym(div_trunc(raw * num, den), DRIVE_MAX as int)
    }

    /// The motion after one tick on sample `s`, and the action it asks for.
    pub open spec fn next(self, s: TrackingSample) -> (Self, SeekAction) {
        match self.start_time {
            None => (Self { start_time: Some(s.now), prev_time: Some(s.now), ..self }, SeekAction::Wait),
            Some(start) => {
                let (tol, met) = self.tolerances.step(self.distance(s), s.linear_velocity as int, s.now);
                if met || timed_out(self.timeout, start, s.now) {
                    (Self { tolerances: tol, ..self }, SeekAction::Stop)
                } else {
                    let dt = timestep(self.prev_time.unwrap(), s.now);
                    let (lateral, steer) = self.lateral_controller.advanced(self.cross_track(s), 0, dt);
                    let (linear, raw) = self.linear_controller.advanced(-self.signed_distance(s), 0, dt);
                    (
                        Self {
                            tolerances: tol,
                            lateral_controller: lateral,
                            linear_controller: linear,
                            prev_time: Some(s.now),
                            ..self
                        },
                        SeekAction::Drive {
                            throttle: self.tapered(s, raw) as i64,
                            steer: clamp_sym(steer, DRIVE_MAX as int) as i64,
                        },
                    )
                }
            },
        }
    }

    pub fn new(target_point: Vec2, linear_controller: L, lateral_controller: A, tolerances: Tolerances, timeout: Option<u64>) -> (r: Self)
        requires
            target_point.in_field(),
            linear_controller.ready(),
            lateral_controller.ready(),
        ensures
            r.wf(),
            r == (Self {
                target_point,
                reverse: false,
                timeout,
                tolerances,
                linear_controller,
                lateral_controller,
                start_time: None,
                prev_time: None,
            }),
    {
        MoveToPointFuture {
            target_point,
            reverse: false,
            timeout,
            tolerances,
            linear_controller,
            lateral_controller,
            start_time: None,
            prev_time: None,
        }
    }

    /// Reverses this motion, moving to the point backwards rather than forwards.
    pub fn reverse(&mut self) -> (r: &mut Self)
        requires
            old(self).wf(),
        ensures
            *r == (Self { reverse: true, ..*old(self) }),
            *final(self) == *final(r),
            r.wf(),
    {
        self.reverse = true;
        self
    }

    /// Modifies this motion's linear feedback controller.
    pub fn with_linear_controller(&mut self, controller: L) -> (r: &mut Self)
        requires
            old(self).wf(),
            controller.ready(),
        ensures
            *r == (Self { linear_controller: controller, ..*old(self) }),
            *final(self) == *final(r),
            r.wf(),
    {
        self.linear_controller = controller;
        self
    }

    /// Modifies this motion's lateral feedback controller.
    pub fn with_lateral_controller(&mut self, controller: A) -> (r: &mut Self)
        requires
            old(self).wf(),
            controller.ready(),
        ensures
            *r == (Self { lateral_controller: controller, ..*old(self) }),
            *final(self) == *final(r),
            r.wf(),
    {
        self.lateral_controller = controller;
        self
    }

    /// Modifies this motion's timeout duration, in milliseconds.
    pub fn with_timeout(&mut self, timeout: u64) -> (r: &mut Self)
        requires
            old(self).wf(),
        ensures
            *r == (Self { timeout: Some(timeout), ..*old(self) }),
            *final(self) == *final(r),
            r.wf(),
    {
        self.timeout = Some(timeout);
        self
    }

    /// Removes this motion's timeout duration.
    pub fn without_timeout(&mut self) -> (r: &mut Self)
        requires
            old(self).wf(),
        ensures
            *r == (Self { timeout: None, ..*old(self) }),
            *final(self) == *final(r),
            r.wf(),
    {
        self.timeout = None;
        self
    }

    /// Modifies this motion's tolerances.
    pub fn with_tolerances(&mut self, tolerances: Tolerances) -> (r: &mut Self)
        requires
            old(self).wf(),
        ensures
            *r == (Self { tolerances, ..*old(self) }),
            *final(self) == *final(r),
            r.wf(),
    {
        self.tolerances = tolerances;
        self
    }

    /// Modifies this motion's error tolerance.
    pub fn with_error_tolerance(&mut self, tolerance: i64) -> (r: &mut Self)
        requires
            old(self).wf(),
        ensures
            *r == (Self { tolerances: Tolerances { error_tolerance: Some(tolerance), ..old(self).tolerances }, ..*old(self) }),
            *final(self) == *final(r),
            r.wf(),
    {
        self.tolerances.error_tolerance = Some(tolerance);
        self
    }

    /// Removes this motion's error tolerance.
    pub fn without_error_tolerance(&mut self) -> (r: &mut Self)
        requires
            old(self).wf(),
        ensures
            *r == (Self { tolerances: Tolerances { error_tolerance: None, ..old(self).tolerances }, ..*old(self) }),
            *final(self) == *final(r),
            r.wf(),
    {
        self.tolerances.error_tolerance = None;
        self
    }

    /// Modifies this motion's velocity tolerance.
    pub fn with_velocity_tolerance(&mut self, tolerance: i64) -> (r: &mut Self)
        requires
            old(self).wf(),
        ensures
            *r == (Self { tolerances: Tolerances { velocity_tolerance: Some(tolerance), ..old(self).tolerances }, ..*old(self) }),
            *final(self) == *final(r),
            r.wf(),
    {
        self.tolerances.velocity_tolerance = Some(tolerance);
        self
    }

    /// Removes this motion's velocity tolerance.
    pub fn without_velocity_tolerance(&mut self) -> (r: &mut Self)
        requires
            old(self).wf(),
        ensures
            *r == (Self { tolerances: Tolerances { velocity_tolerance: None, ..old(self).tolerances }, ..*old(self) }),
            *final(self) == *final(r),
            r.wf(),
    {
        self.tolerances.velocity_tolerance = None;
        self
    }

    /// Modifies this motion's tolerance duration, in milliseconds.
    pub fn with_tolerance_duration(&mut self, duration: u64) -> (r: &mut Self)
        requires
            old(self).wf(),
        ensures
            *r == (Self { tolerances: Tolerances { duration: Some(duration), ..old(self).tolerances }, ..*old(self) }),
            *final(self) == *final(r),
            r.wf(),
    {
        self.tolerances.duration = Some(duration);
        self
    }

    /// Removes this motion's tolerance duration.
    pub fn without_tolerance_duration(&mut self) -> (r: &mut Self)
        requires
            old(self).wf(),
        ensures
            *r == (Self { tolerances: Tolerances { duration: None, ..old(self).tolerances }, ..*old(self) }),
            *final(self) == *final(r),
            r.wf(),
    {
        self.tolerances.duration = None;
        self
    }

    /// A drive's throttle never exceeds in magnitude the linear controller's
    /// signal on that tick: the taper is a factor of at most one.
    pub proof fn lemma_throttle_within_linear_signal(self, s: TrackingSample)
        requires
            self.wf(),
            s.wf(),
            self.start_time is Some,
        ensures
            self.next(s).1 matches SeekAction::Drive { throttle, steer } ==> {
                let dt = timestep(self.prev_time.unwrap(), s.now);
                let raw = self.linear_controller.advanced(-self.signed_distance(s), 0, dt).1;
                &&& abs(throttle as int) <= abs(raw)
                &&& -DRIVE_MAX <= throttle <= DRIVE_MAX
                &&& -DRIVE_MAX <= steer <= DRIVE_MAX
            },
    {
        let (dx, dy) = self.offset(s);
        assert(dx * dx + dy * dy >= 0) by (nonlinear_arith);
        lemma_floor_sqrt(dx * dx + dy * dy);
        let (num, den) = self.taper(s);
        assert(0 <= num <= den && den > 0) by (nonlinear_arith)
            requires
                self.distance(s) >= 0,
                self.distance(s) == 0 ==> num == abs(s.heading_cos as int) && den == 10000,
                self.distance(s) != 0 ==> den == 10000 * self.distance(s) && 0 <= num <= den,
                -10000 <= s.heading_cos <= 10000;
        let dt = timestep(self.prev_time.unwrap(), s.now);
        let raw = self.linear_controller.advanced(-self.signed_distance(s), 0, dt).1;
        assert(-(den * abs(raw)) <= raw * num <= den * abs(raw)) by (nonlinear_arith)
            requires 0 <= num <= den;
        lemma_div_trunc_scaled(raw * num, den, abs(raw));
    }

    /// The motion after a tick on each sample in turn, and the last action.
    pub open spec fn run_ticks(self, ss: Seq<TrackingSample>) -> (Self, SeekAction)
        decreases ss.len(),
    {
        if ss.len() == 0 {
            (self, SeekAction::Wait)
        } else {
            self.run_ticks(ss.drop_last()).0.next(ss.last())
        }
    }

    /// What the tolerances see on each tick: distance, velocity and time.
    pub open spec fn tolerance_samples(self, ss: Seq<TrackingSample>) -> Seq<Sample> {
        Seq::new(ss.len(), |i: int| (self.distance(ss[i]), ss[i].linear_velocity as int, ss[i].now))
    }

    proof fn lemma_run_ticks(self, ss: Seq<TrackingSample>)
        requires
            self.start_time is Some,
        ensures
            self.run_ticks(ss).0.start_time == self.start_time,
            self.run_ticks(ss).0.target_point == self.target_point,
            self.run_ticks(ss).0.timeout == self.timeout,
            self.run_ticks(ss).0.tolerances == run(self.tolerances, self.tolerance_samples(ss)).0,
            ss.len() > 0 ==> (self.run_ticks(ss).1 is Stop <==> (run(self.tolerances, self.tolerance_samples(ss)).1
                || timed_out(self.timeout, self.start_time.unwrap(), ss.last().now))),
        decreases ss.len(),
    {
        if ss.len() > 0 {
            let p = ss.drop_last();
            self.lemma_run_ticks(p);
            assert(self.tolerance_samples(ss).drop_last() =~= self.tolerance_samples(p));
        }
    }

    /// Tolerance continuity over a motion: once started, a motion without a
    /// timeout stops only after its distance and velocity met the tolerances
    /// on every tick of an unbroken run spanning at least the tolerance
    /// duration, so a single tick out of bounds restarts the timer.
    pub proof fn lemma_motion_continuity(self, ss: Seq<TrackingSample>)
        requires
            self.start_time is Some,
            self.timeout is None,
            self.tolerances.duration is Some,
            self.tolerances.satisfied_since is None,
            self.run_ticks(ss).1 is Stop,
        ensures
            ({
                let t = self.tolerances;
                let k = streak_start(t, self.tolerance_samples(ss));
                &&& 0 <= k < ss.len()
                &&& forall|i: int| k <= i < ss.len()
                    ==> #[trigger] t.met(self.distance(ss[i]), ss[i].linear_velocity as int)
                &&& ss.last().now - ss[k].now >= t.duration.unwrap()
            }),
    {
        if ss.len() == 0 {
            assert(self.run_ticks(ss).1 is Wait);
        }
        self.lemma_run_ticks(ss);
        let t = self.tolerances;
        let samples = self.tolerance_samples(ss);
        lemma_tolerances_continuity(t, samples);
        let k = streak_start(t, samples);
        assert forall|i: int| k <= i < ss.len()
            implies #[trigger] t.met(self.distance(ss[i]), ss[i].linear_velocity as int) by {
            assert(t.met(samples[i].0 as int, samples[i].1 as int));
        }
    }

    /// Runs one tick of the pursuit law on a fresh tracking sample.
    pub fn tick(&mut self, s: TrackingSample) -> (r: SeekAction)
        requires
            old(self).wf(),
            s.wf(),
        ensures
            final(self).wf(),
            (*final(self), r) == old(self).next(s),
            r matches SeekAction::Drive { throttle, steer }
                ==> -DRIVE_MAX <= throttle <= DRIVE_MAX && -DRIVE_MAX <= steer <= DRIVE_MAX,
    {
        let start = match self.start_time {
            None => {
                self.start_time = Some(s.now);
                self.prev_time = Some(s.now);
                return SeekAction::Wait;
            },
            Some(t) => t,
        };
        let prev = match self.prev_time {
            Some(t) => t,
            None => start,
        };
        let local = self.target_point.minus(&s.position);
        let distance = local.length();
        let velocity = s.linear_velocity;
        let met = self.tolerances.check(distance as i64, velocity, s.now);
        let timed_out = match self.timeout {
            None => false,
            Some(t) => s.now > start && s.now - start > t,
        };
        if met || timed_out {
            return SeekAction::Stop;
        }
        let elapsed = if s.now > prev { s.now - prev } else { 0 };
        let dt = if elapsed < 1 { 1 } else if elapsed > DT_MAX { DT_MAX } else { elapsed };
        let c = s.heading_cos as i128;
        let n = s.heading_sin as i128;
        let dx = local.x as i128;
        let dy = local.y as i128;
        assert(-21474836480000 <= c * dx <= 21474836480000) by (nonlinear_arith)
            requires -10000 <= c <= 10000, -2147483648 <= dx <= 2147483648;
        assert(-21474836480000 <= c * dy <= 21474836480000) by (nonlinear_arith)
            requires -10000 <= c <= 10000, -2147483648 <= dy <= 2147483648;
        assert(-21474836480000 <= n * dx <= 21474836480000) by (nonlinear_arith)
            requires -10000 <= n <= 10000, -2147483648 <= dx <= 2147483648;
        assert(-21474836480000 <= n * dy <= 21474836480000) by (nonlinear_arith)
            requires -10000 <= n <= 10000, -2147483648 <= dy <= 2147483648;
        let cross = n * dx - c * dy;
        let dot = c * dx + n * dy;
        let scaled = div_trunc_i128(cross, HEADING_SCALE as i128);
        proof {
            lemma_div_trunc_bound(cross as int, HEADING_SCALE as int, 42949672960000);
            assert(42949672960000int / 10000 == 4294967296);
        }
        let d = distance as i64;
        let (cte, signed) = if dot < 0 { (-scaled as i64, -d) } else { (scaled as i64, d) };
        let steer = clamp_i64(self.lateral_controller.update(cte, 0, dt), DRIVE_MAX);
        let raw = self.linear_controller.update(-signed, 0, dt) as i128;
        let (num, den): (i128, i128) = if d == 0 {
            (if c < 0 { -c } else { c }, HEADING_SCALE as i128)
        } else {
            let ad = if dot < 0 { -dot } else { dot };
            let den = HEADING_SCALE as i128 * d as i128;
            (if ad < den { ad } else { den }, den)
        };
        let ar = if raw < 0 { -raw } else { raw };
        assert(-(den * ar) <= raw * num <= den * ar) by (nonlinear_arith)
            requires 0 <= num <= den, ar == abs(raw as int);
        assert(den * ar <= 396140812571321687967719751680000) by (nonlinear_arith)
            requires 0 < den <= 42949672960000, 0 <= ar <= 9223372036854775808;
        proof {
            lemma_div_trunc_scaled(raw * num, den as int, ar as int);
        }
        let q = div_trunc_i128(raw * num, den);
        let throttle = if q > DRIVE_MAX as i128 {
            DRIVE_MAX
        } else if q < -(DRIVE_MAX as i128) {
            -DRIVE_MAX
        } else {
            q as i64
        };
        self.prev_time = Some(s.now);
        SeekAction::Drive { throttle, steer }
    }
}

impl<A: Feedback> MoveToPointFuture<Pid, A> {
    /// With a PID linear controller, a drive's throttle stays within that
    /// controller's output limit, whatever the gains or the distance.
    pub proof fn lemma_throttle_within_output_limit(self, s: TrackingSample)
        requires
            self.wf(),
            s.wf(),
            self.start_time is Some,
            self.linear_controller.output_limit is Some,
        ensures
            self.next(s).1 matches SeekAction::Drive { throttle, .. }
                ==> abs(throttle as int) <= self.linear_controller.output_limit.unwrap(),
    {
        self.lemma_throttle_within_linear_signal(s);
    }

    /// Modifies this motion's linear PID gains.
    pub fn with_linear_gains(&mut self, kp: i64, ki: i64, kd: i64) -> (r: &mut Self)
        requires
            old(self).wf(),
            gain_ok(kp),
            gain_ok(ki),
            gain_ok(kd),
        ensures
            *r == (Self { linear_controller: Pid { kp, ki, kd, ..old(self).linear_controller }, ..*old(self) }),
            *final(self) == *final(r),
            r.wf(),
    {
        self.linear_controller.set_gains(kp, ki, kd);
        self
    }

    /// Modifies this motion's linear proportional gain (`kp`).
    pub fn with_linear_kp(&mut self, kp: i64) -> (r: &mut Self)
        requires
            old(self).wf(),
            gain_ok(kp),
        ensures
            *r == (Self { linear_controller: Pid { kp, ..old(self).linear_controller }, ..*old(self) }),
            *final(self) == *final(r),
            r.wf(),
    {
        self.linear_controller.set_kp(kp);
        self
    }

    /// Modifies this motion's linear integral gain (`ki`).
    pub fn with_linear_ki(&mut self, ki: i64) -> (r: &mut Self)
        requires
            old(self).wf(),
            gain_ok(ki),
        ensures
            *r == (Self { linear_controller: Pid { ki, ..old(self).linear_controller }, ..*old(self) }),
            *final(self) == *final(r),
            r.wf(),
    {
        self.linear_controller.set_ki(ki);
        self
    }

    /// Modifies this motion's linear derivative gain (`kd`).
    pub fn with_linear_kd(&mut self, kd: i64) -> (r: &mut Self)
        requires
            old(self).wf(),
            gain_ok(kd),
        ensures
            *r == (Self { linear_controller: Pid { kd, ..old(self).linear_controller }, ..*old(self) }),
            *final(self) == *final(r),
            r.wf(),
    {
        self.linear_controller.set_kd(kd);
        self
    }

    /// Modifies this motion's linear integration range.
    pub fn with_linear_integration_range(&mut self, integration_range: i64) -> (r: &mut Self)
        requires
            old(self).wf(),
        ensures
            *r == (Self { linear_controller: Pid { integration_range: Some(integration_range), ..old(self).linear_controller }, ..*old(self) }),
            *final(self) == *final(r),
            r.wf(),
    {
        self.linear_controller.set_integration_range(Some(integration_range));
        self
    }

    /// Removes this motion's linear integration range.
    pub fn without_linear_integration_range(&mut self) -> (r: &mut Self)
        requires
            old(self).wf(),
        ensures
            *r == (Self { linear_controller: Pid { integration_range: None, ..old(self).linear_controller }, ..*old(self) }),
            *final(self) == *final(r),
            r.wf(),
    {
        self.linear_controller.set_integration_range(None);
        self
    }

    /// Modifies this motion's linear output limit.
    pub fn with_linear_output_limit(&mut self, limit: i64) -> (r: &mut Self)
        requires
            old(self).wf(),
            limit >= 0,
        ensures
            *r == (Self { linear_controller: Pid { output_limit: Some(limit), ..old(self).linear_controller }, ..*old(self) }),
            *final(self) == *final(r),
            r.wf(),
    {
        self.linear_controller.set_output_limit(Some(limit));
        self
    }

    /// Removes this motion's linear output limit.
    pub fn without_linear_output_limit(&mut self) -> (r: &mut Self)
        requires
            old(self).wf(),
        ensures
            *r == (Self { linear_controller: Pid { output_limit: None, ..old(self).linear_controller }, ..*old(self) }),
            *final(self) == *final(r),
            r.wf(),
    {
        self.linear_controller.set_output_limit(None);
        self
    }
}

impl<L: Feedback> MoveToPointFuture<L, Pid> {
    /// Modifies this motion's lateral PID gains.
    pub fn with_lateral_gains(&mut self, kp: i64, ki: i64, kd: i64) -> (r: &mut Self)
        requires
            old(self).wf(),
            gain_ok(kp),
            gain_ok(ki),
            gain_ok(kd),
        ensures
            *r == (Self { lateral_controller: Pid { kp, ki, kd, ..old(self).lateral_controller }, ..*old(self) }),
            *final(self) == *final(r),
            r.wf(),
    {
        self.lateral_controller.set_gains(kp, ki, kd);
        self
    }

    /// Modifies this motion's lateral proportional gain (`kp`).
    pub fn with_lateral_kp(&mut self, kp: i64) -> (r: &mut Self)
        requires
            old(self).wf(),
            gain_ok(kp),
        ensures
            *r == (Self { lateral_controller: Pid { kp, ..old(self).lateral_controller }, ..*old(self) }),
            *final(self) == *final(r),
            r.wf(),
    {
        self.lateral_controller.set_kp(kp);
        self
    }

    /// Modifies this motion's lateral integral gain (`ki`).
    pub fn with_lateral_ki(&mut self, ki: i64) -> (r: &mut Self)
        requires
            old(self).wf(),
            gain_ok(ki),
        ensures
            *r == (Self { lateral_controller: Pid { ki, ..old(self).lateral_controller }, ..*old(self) }),
            *final(self) == *final(r),
            r.wf(),
    {
        self.lateral_controller.set_ki(ki);
        self
    }

    /// Modifies this motion's lateral derivative gain (`kd`).
    pub fn with_lateral_kd(&mut self, kd: i64) -> (r: &mut Self)
        requires
            old(self).wf(),
            gain_ok(kd),
        ensures
            *r == (Self { lateral_controller: Pid { kd, ..old(self).lateral_controller }, ..*old(self) }),
            *final(self) == *final(r),
            r.wf(),
    {
        self.lateral_controller.set_kd(kd);
        self
    }

    /// Modifies this motion's lateral integration range.
    pub fn with_lateral_integration_range(&mut self, integration_range: i64) -> (r: &mut Self)
        requires
            old(self).wf(),
        ensures
            *r == (Self { lateral_controller: Pid { integration_range: Some(integration_range), ..old(self).lateral_controller }, ..*old(self) }),
            *final(self) == *final(r),
            r.wf(),
    {
        self.lateral_controller.set_integration_range(Some(integration_range));
        self
    }

    /// Removes this motion's lateral integration range.
    pub fn without_lateral_integration_range(&mut self) -> (r: &mut Self)
        requires
            old(self).wf(),
        ensures
            *r == (Self { lateral_controller: Pid { integration_range: None, ..old(self).lateral_controller }, ..*old(self) }),
            *final(self) == *final(r),
            r.wf(),
    {
        self.lateral_controller.set_integration_range(None);
        self
    }

    /// Modifies this motion's lateral output limit.
    pub fn with_lateral_output_limit(&mut self, limit: i64) -> (r: &mut Self)
        requires
            old(self).wf(),
            limit >= 0,
        ensures
            *r == (Self { lateral_controller: Pid { output_limit: Some(limit), ..old(self).lateral_controller }, ..*old(self) }),
            *final(self) == *final(r),
            r.wf(),
    {
        self.lateral_controller.set_output_limit(Some(limit));
        self
    }

    /// Removes this motion's lateral output limit.
    pub fn without_lateral_output_limit(&mut self) -> (r: &mut Self)
        requires
            old(self).wf(),
        ensures
            *r == (Self { lateral_controller: Pid { output_limit: None, ..old(self).lateral_controller }, ..*old(self) }),
            *final(self) == *final(r),
            r.wf(),
    {
        self.lateral_controller.set_output_limit(None);
        self
    }
}

} // verus!
