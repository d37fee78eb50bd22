//! Drivetrain models and the mixing of drive signals into wheel powers.
use vstd::prelude::*;
use crate::numeric::{abs, div_trunc, abs_i64, div_trunc_i128, lemma_div_trunc_bound, lemma_div_trunc_scaled, DRIVE_MAX};
use crate::geometry::Vec2;

verus! {

/// A collection of motors driving a wheeled mobile robot.
pub trait DrivetrainModel {
    /// Error returned when the robot fails to move.
    type Error;
}

/// A drivetrain that can translate in any direction while turning.
pub trait Holonomic: DrivetrainModel {
    fn drive_vector(&mut self, vector: Vec2, turn: i64) -> Result<(), Self::Error>;
}

/// A drivetrain driven by independent left and right powers.
pub trait Tank: DrivetrainModel {
    /// Left and right powers of the last command sent to the motors. A
    /// verified drivetrain states its own; the default knows of no command.
    open spec fn tank_command(&self) -> (int, int) {
        (0, 0)
    }

    /// Sends left and right powers to the motors, whether or not the motors
    /// then report an error.
    fn drive_tank(&mut self, left: i64, right: i64) -> (r: Result<(), Self::Error>)
        ensures
            final(self).tank_command() == (left as int, right as int),
    ;
}

/// Full power of a drive signal: wheel powers lie in `[-FULL_POWER, FULL_POWER]`.
pub const FULL_POWER: i64 = 1000;

/// A drivetrain driven by a throttle and a steering signal.
pub trait Arcade: DrivetrainModel {
    /// Left and right powers of the last command sent to the motors. A
    /// verified drivetrain states its own; the default knows of no command.
    open spec fn arcade_command(&self) -> (int, int) {
        (0, 0)
    }

    /// Sends the sum and the difference of throttle and steering, desaturated
    /// to full power, as left and right powers.
    fn drive_arcade(&mut self, throttle: i64, steer: i64) -> (r: Result<(), Self::Error>)
        requires
            -DRIVE_MAX <= throttle <= DRIVE_MAX,
            -DRIVE_MAX <= steer <= DRIVE_MAX,
        ensures
            final(self).arcade_command() == ({
                let powers = desaturated(seq![(throttle + steer) as i64, (throttle - steer) as i64], FULL_POWER as int);
                (powers[0], powers[1])
            }),
    ;
}

/// Every tank drivetrain drives arcade-style: the sum and the difference of
/// throttle and steering, desaturated to full power, go to the left and right.
impl<T: Tank> Arcade for T {
    open spec fn arcade_command(&self) -> (int, int) {
        self.tank_command()
    }

    fn drive_arcade(&mut self, throttle: i64, steer: i64) -> Result<(), Self::Error> {
        let powers = arcade_to_tank(throttle, steer, FULL_POWER);
        self.drive_tank(powers[0], powers[1])
    }
}

/// The largest magnitude among `s`, or zero when `s` is empty.
pub open spec fn largest_magnitude(s: Seq<i64>) -> int
    decreases s.len(),
{
    if s.len() == 0 {
        0
    } else {
        let m = largest_magnitude(s.drop_last());
        let a = abs(s.last() as int);
        if a > m { a } else { m }
    }
}

pub proof fn lemma_largest_magnitude(s: Seq<i64>)
    ensures
        largest_magnitude(s) >= 0,
        forall|j: int| 0 <= j < s.len() ==> abs(#[trigger] s[j] as int) <= largest_magnitude(s),
    decreases s.len(),
{
    if s.len() > 0 {
        lemma_largest_magnitude(s.drop_last());
        assert forall|j: int| 0 <= j < s.len() implies abs(#[trigger] s[j] as int) <= largest_magnitude(s) by {
            if j < s.len() - 1 {
                assert(s[j] == s.drop_last()[j]);
            }
        }
    }
}

/// `values` scaled uniformly so that none exceeds `max` in magnitude.
pub open spec fn desaturated(values: Seq<i64>, max: int) -> Seq<int> {
    let l = largest_magnitude(values);
    if l > max {
        Seq::new(values.len(), |i: int| div_trunc(values[i] * max, l))
    } else {
        Seq::new(values.len(), |i: int| values[i] as int)
    }
}

/// Scales `values` down uniformly so that none exceeds `max` in magnitude;
/// values already within the limit come back unchanged.
pub fn desaturate<const N: usize>(values: [i64; N], max: i64) -> (r: [i64; N])
    requires
        max >= 0,
        forall|i: int| 0 <= i < N ==> #[trigger] values@[i] > i64::MIN,
    ensures
        r@.len() == N,
        forall|i: int| 0 <= i < N ==> #[trigger] r@[i] as int == desaturated(values@, max as int)[i],
        forall|i: int| 0 <= i < N ==> -max <= #[trigger] r@[i] <= max,
{
    let mut largest: i64 = 0;
    let mut i: usize = 0;
    while i < N
        invariant
            i <= N,
            values@.len() == N,
            forall|k: int| 0 <= k < N ==> #[trigger] values@[k] > i64::MIN,
            largest as int == largest_magnitude(values@.take(i as int)),
            0 <= largest,
        decreases N - i,
    {
        assert(values@.take(i as int + 1).drop_last() == values@.take(i as int));
        let a = abs_i64(values[i]);
        if a > largest {
            largest = a;
        }
        i = i + 1;
    }
    assert(values@.take(N as int) == values@);
    proof {
        lemma_largest_magnitude(values@);
    }
    if largest <= max {
        return values;
    }
    let mut r = values;
    let mut j: usize = 0;
    while j < N
        invariant
            j <= N,
            values@.len() == N,
            r@.len() == N,
            0 <= max < largest,
            largest as int == largest_magnitude(values@),
            forall|k: int| 0 <= k < N ==> abs(#[trigger] values@[k] as int) <= largest,
            forall|k: int| 0 <= k < j ==> #[trigger] r@[k] as int == div_trunc(values@[k] * max, largest as int),
            forall|k: int| 0 <= k < j ==> -max <= #[trigger] r@[k] <= max,
        decreases N - j,
    {
        let v = values[j] as i128;
        let m = max as i128;
        let l = largest as i128;
        assert(-(l * m) <= v * m <= l * m) by (nonlinear_arith) requires -l <= v <= l, m >= 0;
        assert(l * m <= 85070591730234615847396907784232501249) by (nonlinear_arith)
            requires 0 <= l <= 9223372036854775807, 0 <= m <= 9223372036854775807;
        let q = div_trunc_i128(v * m, l);
        proof {
            lemma_div_trunc_bound(v * m, l as int, l * m);
            lemma_div_trunc_scaled(v * m, l as int, m as int);
        }
        r[j] = q as i64;
        j = j + 1;
    }
    r
}

/// Left and right powers for a throttle and a steering signal, desaturated
/// to unit power `max`.
pub fn arcade_to_tank(throttle: i64, steer: i64, max: i64) -> (r: [i64; 2])
    requires
        -DRIVE_MAX <= throttle <= DRIVE_MAX,
        -DRIVE_MAX <= steer <= DRIVE_MAX,
        max >= 0,
    ensures
        r@.len() == 2,
        r@[0] as int == desaturated(seq![(throttle + steer) as i64, (throttle - steer) as i64], max as int)[0],
        r@[1] as int == desaturated(seq![(throttle + steer) as i64, (throttle - steer) as i64], max as int)[1],
        -max <= r@[0] <= max,
        -max <= r@[1] <= max,
{
    let values = [throttle + steer, throttle - steer];
    assert(values@ == seq![(throttle + steer) as i64, (throttle - steer) as i64]);
    desaturate(values, max)
}

} // verus!
