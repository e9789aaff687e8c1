//! The scripted flight: which commands follow the pre-flight battery check.
use vstd::prelude::*;
use crate::command::Command;

verus! {

/// Below this battery percentage the vehicle does not take off.
pub const LOW_BATTERY_PERCENT: u8 = 15;

/// Seconds to hover after take-off before manoeuvring.
pub const SETTLE_SECONDS: u64 = 2;

/// One step of a flight: a command that must be acknowledged before the
/// next step, or a pause.
#[derive(Clone, Copy, Debug, PartialEq, Eq, Structural)]
pub enum Step {
    Issue(Command),
    Pause(u64),
}

/// The scripted manoeuvre: take off, settle, turn a quarter clockwise,
/// back off a metre, slide right a metre, land.
pub open spec fn spec_flight_steps() -> Seq<Step> {
    seq![
        Step::Issue(Command::TakeOff),
        Step::Pause(SETTLE_SECONDS),
        Step::Issue(Command::RotateClockwise(90)),
        Step::Issue(Command::MoveBackward(100)),
        Step::Issue(Command::MoveRight(100)),
        Step::Issue(Command::Land),
    ]
}

/// What to fly for a battery reading: nothing below the threshold, the
/// scripted manoeuvre otherwise.
pub open spec fn spec_flight_plan(battery: u8) -> Seq<Step> {
    if battery < LOW_BATTERY_PERCENT {
        Seq::empty()
    } else {
        spec_flight_steps()
    }
}

/// Whether the battery reading allows a flight.
pub fn battery_sufficient(battery: u8) -> (r: bool)
    ensures
        r == (battery >= LOW_BATTERY_PERCENT),
{
    battery >= LOW_BATTERY_PERCENT
}

/// The steps to fly for a battery reading.
pub fn flight_plan(battery: u8) -> (r: Vec<Step>)
    ensures
        r@ == spec_flight_plan(battery),
{
    let mut steps: Vec<Step> = Vec::new();
    if battery_sufficient(battery) {
        steps.push(Step::Issue(Command::TakeOff));
        steps.push(Step::Pause(SETTLE_SECONDS));
        steps.push(Step::Issue(Command::RotateClockwise(90)));
        steps.push(Step::Issue(Command::MoveBackward(100)));
        steps.push(Step::Issue(Command::MoveRight(100)));
        steps.push(Step::Issue(Command::Land));
    }
    assert(steps@ =~= spec_flight_plan(battery));
    steps
}

} // verus!
