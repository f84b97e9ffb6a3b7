//! The decisions of the control loop, as a state machine.
//!
//! The driver performs each [`Action`] that [`ControlLoop::step`] hands out
//! and answers it with the matching [`Event`]. One round reads the sensor,
//! sets the fan's duty cycle, reports both values and waits; any error from
//! the sensor or the fan halts the loop for good.
use vstd::prelude::*;
use crate::policy::{duty_percent_of, temp_to_duty_cycle};
use crate::reading::{parse_millidegrees, parse_spec, SensorError};

verus! {

/// Seconds to wait between two rounds.
pub const POLL_INTERVAL_SECS: u64 = 5;

/// Frequency, in hertz, that the PWM channel is configured with.
pub const PWM_FREQUENCY_HZ: u64 = 25000;

/// What stops the controller.
#[derive(Clone, Copy, Debug, PartialEq, Eq, Structural)]
pub enum FanError {
    /// No temperature could be read.
    Sensor(SensorError),
    /// The PWM channel could not be set up or updated.
    Actuator,
}

/// Where the controller stands in its round.
#[derive(Clone, Copy, Debug, PartialEq, Eq, Structural)]
pub enum Phase {
    /// Waiting for the sensor's text.
    AwaitingReading,
    /// Waiting for the fan to take the duty cycle chosen for this reading.
    AwaitingActuator { millidegrees: i64, percent: u8 },
    /// Reporting the round and waiting before the next one.
    Resting { millidegrees: i64, percent: u8 },
    /// Stopped by an error; nothing more is done.
    Halted { error: FanError },
}

/// What the driver is asked to do next.
#[derive(Clone, Copy, Debug, PartialEq, Eq, Structural)]
pub enum Action {
    /// Read the sensor's text.
    ReadSensor,
    /// Set the fan's duty cycle to `percent` percent.
    SetDuty { percent: u8 },
    /// Report the temperature and the duty cycle, then wait `seconds`.
    ReportAndWait { millidegrees: i64, percent: u8, seconds: u64 },
    /// Stop with this error.
    Halt { error: FanError },
}

/// What the driver reports back.
#[derive(Clone, Debug)]
pub enum Event {
    /// The sensor was read and held this text.
    SensorRead(Vec<u8>),
    /// The sensor could not be read.
    SensorUnavailable,
    /// The fan took the duty cycle.
    DutySet,
    /// The fan refused the duty cycle.
    ActuatorFailed,
    /// The wait is over.
    Woke,
}

/// The action that a controller in phase `p` asks for.
pub open spec fn pending_spec(p: Phase) -> Action {
    match p {
        Phase::AwaitingReading => Action::ReadSensor,
        Phase::AwaitingActuator { percent, .. } => Action::SetDuty { percent },
        Phase::Resting { millidegrees, percent } => Action::ReportAndWait {
            millidegrees,
            percent,
            seconds: POLL_INTERVAL_SECS,
        },
        Phase::Halted { error } => Action::Halt { error },
    }
}

/// The phase after event `e` in phase `p`. An event that does not answer the
/// pending action changes nothing.
pub open spec fn next_phase(p: Phase, e: Event) -> Phase {
    match (p, e) {
        (Phase::AwaitingReading, Event::SensorRead(text)) => match parse_spec(text@) {
            Ok(t) => Phase::AwaitingActuator {
                millidegrees: t,
                percent: duty_percent_of(t as int) as u8,
            },
            Err(error) => Phase::Halted { error: FanError::Sensor(error) },
        },
        (Phase::AwaitingReading, Event::SensorUnavailable) => Phase::Halted {
            error: FanError::Sensor(SensorError::Unavailable),
        },
        (Phase::AwaitingActuator { millidegrees, percent }, Event::DutySet) => Phase::Resting {
            millidegrees,
            percent,
        },
        (Phase::AwaitingActuator { .. }, Event::ActuatorFailed) => Phase::Halted {
            error: FanError::Actuator,
        },
        (Phase::Resting { .. }, Event::Woke) => Phase::AwaitingReading,
        _ => p,
    }
}

/// The controller's state.
pub struct ControlLoop {
    pub phase: Phase,
}

impl ControlLoop {
    /// A controller about to read the sensor for its first round.
    pub fn new() -> (r: ControlLoop)
        ensures
            r.phase == Phase::AwaitingReading,
    {
        ControlLoop { phase: Phase::AwaitingReading }
    }

    /// The action that the controller asks for in its current phase.
    pub fn pending_action(&self) -> (r: Action)
        ensures
            r == pending_spec(self.phase),
    {
        match self.phase {
            Phase::AwaitingReading => Action::ReadSensor,
            Phase::AwaitingActuator { percent, .. } => Action::SetDuty { percent },
            Phase::Resting { millidegrees, percent } => Action::ReportAndWait {
                millidegrees,
                percent,
                seconds: POLL_INTERVAL_SECS,
            },
            Phase::Halted { error } => Action::Halt { error },
        }
    }

    /// Takes in the driver's answer to the pending action and returns the
    /// next action.
    pub fn step(&mut self, event: Event) -> (r: Action)
        ensures
            final(self).phase == next_phase(old(self).phase, event),
            r == pending_spec(final(self).phase),
    {
        let next = match (self.phase, event) {
            (Phase::AwaitingReading, Event::SensorRead(text)) => match parse_millidegrees(
                text.as_slice(),
            ) {
                Ok(t) => Phase::AwaitingActuator {
                    millidegrees: t,
                    percent: temp_to_duty_cycle(t),
                },
                Err(error) => Phase::Halted { error: FanError::Sensor(error) },
            },
            (Phase::AwaitingReading, Event::SensorUnavailable) => Phase::Halted {
                error: FanError::Sensor(SensorError::Unavailable),
            },
            (Phase::AwaitingActuator { millidegrees, percent }, Event::DutySet) => Phase::Resting {
                millidegrees,
                percent,
            },
            (Phase::AwaitingActuator { .. }, Event::ActuatorFailed) => Phase::Halted {
                error: FanError::Actuator,
            },
            (Phase::Resting { .. }, Event::Woke) => Phase::AwaitingReading,
            (p, _) => p,
        };
        self.phase = next;
        self.pending_action()
    }
}

/// Once halted, the controller stays halted with the same error whatever
/// it is told, and never again asks for the fan to be set.
pub proof fn lemma_halt_is_final(error: FanError, e: Event)
    ensures
        next_phase(Phase::Halted { error }, e) == (Phase::Halted { error }),
        pending_spec(next_phase(Phase::Halted { error }, e)) == (Action::Halt { error }),
{
}

/// A sensor text that cannot be read as a temperature halts the controller
/// with that error, before the fan is asked for anything.
pub proof fn lemma_bad_reading_halts(text: Vec<u8>)
    requires
        parse_spec(text@) is Err,
    ensures
        next_phase(Phase::AwaitingReading, Event::SensorRead(text)) == (Phase::Halted {
            error: FanError::Sensor(parse_spec(text@)->Err_0),
        }),
        pending_spec(next_phase(Phase::AwaitingReading, Event::SensorRead(text))) is Halt,
{
}

/// A sensor text that reads as `t` millidegrees has the fan set to the
/// table's duty cycle for `t`.
pub proof fn lemma_good_reading_sets_duty(text: Vec<u8>, t: i64)
    requires
        parse_spec(text@) == Ok::<i64, SensorError>(t),
    ensures
        pending_spec(next_phase(Phase::AwaitingReading, Event::SensorRead(text))) == (Action::SetDuty {
            percent: duty_percent_of(t as int) as u8,
        }),
{
}

} // verus!
