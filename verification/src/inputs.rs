//! Motor-direction input planning.
//!
//! The IC's outputs are driven through the EN/IN1 and PH/IN2 input
//! pins, whose meaning depends on the configured input mode.  The mode
//! value owns the pin pair wired to those inputs — a PWM-capable pin
//! and, in phase/enable mode, a digital output — but the pin types are
//! opaque here: the functions compute the ordered pin actions a drive
//! command requires, and the caller applies each action to the pin it
//! names.

use vstd::prelude::*;

verus! {

use crate::Drv8873Error;

/// An input pin of the IC: EN/IN1 or PH/IN2.
#[derive(Debug, Clone, Copy, PartialEq, Eq, Structural)]
pub enum InputPin {
    In1,
    In2,
}

/// One action to apply to an input pin.
#[derive(Debug, Clone, Copy, PartialEq, Eq, Structural)]
pub enum PinAction {
    /// Drive the digital pin high.
    SetHigh,
    /// Drive the digital pin low.
    SetLow,
    /// Set the PWM pin's duty cycle, in percent.
    DutyCyclePercent(u8),
    /// Set the PWM pin fully off.
    DutyCycleFullyOff,
}

/// One step of a drive command: the pin to act on and the action.
#[derive(Debug, Clone, Copy, PartialEq, Eq, Structural)]
pub struct DriveStep {
    pub pin: InputPin,
    pub action: PinAction,
}

/// The pin actions of a forward drive in phase/enable mode: PH/IN2
/// high, then EN/IN1 at `speed` percent duty.
pub open spec fn spec_forward_phase_enable_steps(speed: u8) -> Seq<DriveStep> {
    seq![
        (DriveStep { pin: InputPin::In2, action: PinAction::SetHigh }),
        (DriveStep { pin: InputPin::In1, action: PinAction::DutyCyclePercent(speed) }),
    ]
}

/// The pin actions of a forward drive in PWM mode: IN2 fully off, then
/// IN1 at `speed` percent duty.
pub open spec fn spec_forward_pwm_steps(speed: u8) -> Seq<DriveStep> {
    seq![
        (DriveStep { pin: InputPin::In2, action: PinAction::DutyCycleFullyOff }),
        (DriveStep { pin: InputPin::In1, action: PinAction::DutyCyclePercent(speed) }),
    ]
}

/// The pin actions of a backward drive in phase/enable mode: PH/IN2
/// low, then EN/IN1 at `speed` percent duty.
pub open spec fn spec_backward_phase_enable_steps(speed: u8) -> Seq<DriveStep> {
    seq![
        (DriveStep { pin: InputPin::In2, action: PinAction::SetLow }),
        (DriveStep { pin: InputPin::In1, action: PinAction::DutyCyclePercent(speed) }),
    ]
}

/// The pin actions of a backward drive in PWM mode: IN1 fully off,
/// then IN2 at `speed` percent duty.
pub open spec fn spec_backward_pwm_steps(speed: u8) -> Seq<DriveStep> {
    seq![
        (DriveStep { pin: InputPin::In1, action: PinAction::DutyCycleFullyOff }),
        (DriveStep { pin: InputPin::In2, action: PinAction::DutyCyclePercent(speed) }),
    ]
}

/// The configured input mode together with the pin pair wired to the
/// IC's inputs for that mode, where one has been assigned.  `PW` is
/// the caller's PWM-capable pin type and `P` its digital output type;
/// both are opaque here.
#[derive(Debug)]
pub enum InputMode<PW, P> {
    /// Phase/enable mode: the pair is (EN/IN1 as PWM, PH/IN2 as
    /// digital direction).
    PhaseEnable(Option<(PW, P)>),
    /// PWM mode: the pair is (IN1, IN2), both PWM-capable.
    PWM(Option<(PW, PW)>),
    /// Independent half-bridge mode: drive commands are not supported.
    IndependentHalfBridge(Option<(PW, PW)>),
    /// Inputs disabled: drive commands are not supported.
    InputDisabled,
}

impl<PW, P> InputMode<PW, P> {
    /// Brake the motor.  Both outputs are left as they are; braking is
    /// the IC's default behaviour between drive commands.
    pub fn brake(&self, speed: u8) -> (r: Result<(), Drv8873Error>)
        ensures
            r is Ok,
    {
        Ok(())
    }

    /// The ordered pin actions that drive the motor forward at `speed`
    /// percent duty, or an input error when no pins are assigned for
    /// the mode.
    pub fn forward_with_speed(&self, speed: u8) -> (r: Result<Vec<DriveStep>, Drv8873Error>)
        requires
            self is PhaseEnable || self is PWM,
        ensures
            self matches InputMode::PhaseEnable(Some(_)) ==> (r matches Ok(steps) && steps@
                == spec_forward_phase_enable_steps(speed)),
            self matches InputMode::PWM(Some(_)) ==> (r matches Ok(steps) && steps@
                == spec_forward_pwm_steps(speed)),
            (self matches InputMode::PhaseEnable(None) || self matches InputMode::PWM(None)) ==> (
            r matches Err(e) && e is InputError),
    {
        match self {
            InputMode::PhaseEnable(Some(_)) => {
                let mut steps: Vec<DriveStep> = Vec::new();
                steps.push(DriveStep { pin: InputPin::In2, action: PinAction::SetHigh });
                steps.push(
                    DriveStep { pin: InputPin::In1, action: PinAction::DutyCyclePercent(speed) },
                );
                proof {
                    assert(steps@ =~= spec_forward_phase_enable_steps(speed));
                }
                Ok(steps)
            },
            InputMode::PWM(Some(_)) => {
                let mut steps: Vec<DriveStep> = Vec::new();
                steps.push(DriveStep { pin: InputPin::In2, action: PinAction::DutyCycleFullyOff });
                steps.push(
                    DriveStep { pin: InputPin::In1, action: PinAction::DutyCyclePercent(speed) },
                );
                proof {
                    assert(steps@ =~= spec_forward_pwm_steps(speed));
                }
                Ok(steps)
            },
            _ => Err(Drv8873Error::InputError("No pins assigned for motor control")),
        }
    }

    /// The ordered pin actions that drive the motor backward at
    /// `speed` percent duty, or an input error when no pins are
    /// assigned for the mode.
    pub fn backward_with_speed(&self, speed: u8) -> (r: Result<Vec<DriveStep>, Drv8873Error>)
        requires
            self is PhaseEnable || self is PWM,
        ensures
            self matches InputMode::PhaseEnable(Some(_)) ==> (r matches Ok(steps) && steps@
                == spec_backward_phase_enable_steps(speed)),
            self matches InputMode::PWM(Some(_)) ==> (r matches Ok(steps) && steps@
                == spec_backward_pwm_steps(speed)),
            (self matches InputMode::PhaseEnable(None) || self matches InputMode::PWM(None)) ==> (
            r matches Err(e) && e is InputError),
    {
        match self {
            InputMode::PhaseEnable(Some(_)) => {
                let mut steps: Vec<DriveStep> = Vec::new();
                steps.push(DriveStep { pin: InputPin::In2, action: PinAction::SetLow });
                steps.push(
                    DriveStep { pin: InputPin::In1, action: PinAction::DutyCyclePercent(speed) },
                );
                proof {
                    assert(steps@ =~= spec_backward_phase_enable_steps(speed));
                }
                Ok(steps)
            },
            InputMode::PWM(Some(_)) => {
                let mut steps: Vec<DriveStep> = Vec::new();
                steps.push(DriveStep { pin: InputPin::In1, action: PinAction::DutyCycleFullyOff });
                steps.push(
                    DriveStep { pin: InputPin::In2, action: PinAction::DutyCyclePercent(speed) },
                );
                proof {
                    assert(steps@ =~= spec_backward_pwm_steps(speed));
                }
                Ok(steps)
            },
            _ => Err(Drv8873Error::InputError("No pins assigned for motor control")),
        }
    }
}

} // verus!
