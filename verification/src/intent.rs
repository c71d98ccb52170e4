//! Operator intents, in percent of full scale, and the speed commands they become.
//!
//! A percentage is held in parts per million of full scale, that is in
//! ten-thousandths of a percent. That grid is coarse enough for a slider value
//! in single precision to round to the decimal that the operator set, and ten
//! times finer than the controller's speed unit, which is a thousandth of a
//! percent.

use vstd::prelude::*;

verus! {

/// One hundred percent, in parts per million of full scale.
pub const FULL_SCALE_PPM: i32 = 1_000_000;

/// Parts per million of full scale in one device speed unit.
pub const PPM_PER_UNIT: i32 = 10;

/// The largest magnitude of a channel speed in an individual command.
pub const INDIVIDUAL_LIMIT: i32 = 100_000;

/// The largest magnitude of a channel speed in a mixed command.
pub const MIXED_LIMIT: i32 = 150_000;

/// A percentage between -100 and 100, in parts per million of full scale.
#[derive(Clone, Copy, Debug, PartialEq, Eq)]
pub struct Percent {
    ppm: i32,
}

impl View for Percent {
    type V = int;

    /// The percentage in parts per million of full scale.
    closed spec fn view(&self) -> int {
        self.ppm as int
    }
}

impl Percent {
    #[verifier::type_invariant]
    spec fn in_range(self) -> bool {
        -FULL_SCALE_PPM <= self.ppm <= FULL_SCALE_PPM
    }

    /// The percentage of `ppm` parts per million of full scale, if that lies
    /// between -100 and 100 percent.
    pub fn new(ppm: i32) -> (percent: Option<Percent>)
        ensures
            percent is Some <==> -FULL_SCALE_PPM <= ppm <= FULL_SCALE_PPM,
            percent is Some ==> percent->0@ == ppm,
    {
        if -FULL_SCALE_PPM <= ppm && ppm <= FULL_SCALE_PPM {
            Some(Percent { ppm })
        } else {
            None
        }
    }

    /// Zero percent.
    pub fn zero() -> (percent: Percent)
        ensures
            percent@ == 0,
    {
        Percent { ppm: 0 }
    }

    /// The percentage in parts per million of full scale.
    pub fn ppm(&self) -> (ppm: i32)
        ensures
            ppm == self@,
            -FULL_SCALE_PPM <= ppm <= FULL_SCALE_PPM,
    {
        proof {
            use_type_invariant(self);
        }
        self.ppm
    }
}

/// The control surface that a speed command comes from.
#[derive(Clone, Copy, Debug, PartialEq, Eq)]
pub enum ControlSurface {
    /// The two independent motor sliders.
    Individual,
    /// The speed and turn pair.
    Mixed,
}

/// One send-speed call: both channels in device units, set together.
#[derive(Clone, Copy, Debug, PartialEq, Eq)]
pub struct SpeedCommand {
    pub surface: ControlSurface,
    pub m1: i32,
    pub m2: i32,
}

/// The quotient of `x` by a positive `d`, rounded toward zero.
pub open spec fn toward_zero(x: int, d: int) -> int
    recommends
        d > 0,
{
    if x >= 0 {
        x / d
    } else {
        -((-x) / d)
    }
}

/// A percentage in device units: a thousand units to the percent, the
/// fraction of a unit dropped.
pub open spec fn speed_units(ppm: int) -> int {
    toward_zero(ppm, PPM_PER_UNIT as int)
}

/// The left channel of a mixed command: the speed less the turn at half
/// authority, `speed * 1000 - turn * 500` to the percent, the fraction of a
/// unit dropped.
pub open spec fn mixed_left(speed: int, turn: int) -> int {
    toward_zero(2 * speed - turn, 2 * PPM_PER_UNIT)
}

/// The right channel of a mixed command: the speed plus the turn at half
/// authority, `speed * 1000 + turn * 500` to the percent, the fraction of a
/// unit dropped.
pub open spec fn mixed_right(speed: int, turn: int) -> int {
    toward_zero(2 * speed + turn, 2 * PPM_PER_UNIT)
}

/// The command that sets both channels to their own percentages.
pub open spec fn individual_command(m1: int, m2: int) -> SpeedCommand {
    SpeedCommand {
        surface: ControlSurface::Individual,
        m1: speed_units(m1) as i32,
        m2: speed_units(m2) as i32,
    }
}

/// The command that a speed and turn pair becomes.
pub open spec fn mixed_command(speed: int, turn: int) -> SpeedCommand {
    SpeedCommand {
        surface: ControlSurface::Mixed,
        m1: mixed_left(speed, turn) as i32,
        m2: mixed_right(speed, turn) as i32,
    }
}

/// Divides by a positive number and drops the fraction.
fn divide_toward_zero(x: i64, d: i64) -> (q: i64)
    requires
        d > 0,
        x > i64::MIN,
    ensures
        q == toward_zero(x as int, d as int),
{
    if x >= 0 {
        x / d
    } else {
        -((-x) / d)
    }
}

/// Scales two percentages to the command for the individual sliders.
pub fn scale_individual(m1: Percent, m2: Percent) -> (command: SpeedCommand)
    ensures
        command == individual_command(m1@, m2@),
        command.m1 == speed_units(m1@),
        command.m2 == speed_units(m2@),
        -INDIVIDUAL_LIMIT <= command.m1 <= INDIVIDUAL_LIMIT,
        -INDIVIDUAL_LIMIT <= command.m2 <= INDIVIDUAL_LIMIT,
{
    let a: i64 = divide_toward_zero(m1.ppm() as i64, PPM_PER_UNIT as i64);
    let b: i64 = divide_toward_zero(m2.ppm() as i64, PPM_PER_UNIT as i64);
    SpeedCommand { surface: ControlSurface::Individual, m1: a as i32, m2: b as i32 }
}

/// Mixes a speed and a turn into the command for the two channels.
pub fn scale_mixed(speed: Percent, turn: Percent) -> (command: SpeedCommand)
    ensures
        command == mixed_command(speed@, turn@),
        command.m1 == mixed_left(speed@, turn@),
        command.m2 == mixed_right(speed@, turn@),
        -MIXED_LIMIT <= command.m1 <= MIXED_LIMIT,
        -MIXED_LIMIT <= command.m2 <= MIXED_LIMIT,
{
    let s: i64 = speed.ppm() as i64;
    let t: i64 = turn.ppm() as i64;
    let left: i64 = divide_toward_zero(2 * s - t, 2 * (PPM_PER_UNIT as i64));
    let right: i64 = divide_toward_zero(2 * s + t, 2 * (PPM_PER_UNIT as i64));
    SpeedCommand { surface: ControlSurface::Mixed, m1: left as i32, m2: right as i32 }
}

} // verus!
