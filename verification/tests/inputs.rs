use drv8873::inputs::{DriveStep, InputMode, InputPin, PinAction};
use drv8873::Drv8873Error;

// the pin types are opaque to the planning logic, so plain integers
// stand in for a PWM pin and a digital pin
type PlanMode = InputMode<u8, u16>;

#[test]
fn brake_always_succeeds() {
    let mode: PlanMode = InputMode::PhaseEnable(None);
    assert!(mode.brake(50).is_ok());
    let mode: PlanMode = InputMode::PWM(Some((0, 0)));
    assert!(mode.brake(0).is_ok());
}

#[test]
fn forward_phase_enable_plan() {
    let mode: PlanMode = InputMode::PhaseEnable(Some((0, 0)));
    let steps = mode.forward_with_speed(75).unwrap();
    assert_eq!(
        steps,
        vec![
            DriveStep { pin: InputPin::In2, action: PinAction::SetHigh },
            DriveStep { pin: InputPin::In1, action: PinAction::DutyCyclePercent(75) },
        ]
    );
}

#[test]
fn forward_pwm_plan() {
    let mode: PlanMode = InputMode::PWM(Some((0, 0)));
    let steps = mode.forward_with_speed(40).unwrap();
    assert_eq!(
        steps,
        vec![
            DriveStep { pin: InputPin::In2, action: PinAction::DutyCycleFullyOff },
            DriveStep { pin: InputPin::In1, action: PinAction::DutyCyclePercent(40) },
        ]
    );
}

#[test]
fn backward_phase_enable_plan() {
    let mode: PlanMode = InputMode::PhaseEnable(Some((0, 0)));
    let steps = mode.backward_with_speed(75).unwrap();
    assert_eq!(
        steps,
        vec![
            DriveStep { pin: InputPin::In2, action: PinAction::SetLow },
            DriveStep { pin: InputPin::In1, action: PinAction::DutyCyclePercent(75) },
        ]
    );
}

#[test]
fn backward_pwm_plan() {
    let mode: PlanMode = InputMode::PWM(Some((0, 0)));
    let steps = mode.backward_with_speed(40).unwrap();
    assert_eq!(
        steps,
        vec![
            DriveStep { pin: InputPin::In1, action: PinAction::DutyCycleFullyOff },
            DriveStep { pin: InputPin::In2, action: PinAction::DutyCyclePercent(40) },
        ]
    );
}

#[test]
fn drive_without_pins_is_an_input_error() {
    let mode: PlanMode = InputMode::PhaseEnable(None);
    assert!(matches!(
        mode.forward_with_speed(10),
        Err(Drv8873Error::InputError(_))
    ));
    assert!(matches!(
        mode.backward_with_speed(10),
        Err(Drv8873Error::InputError(_))
    ));
    let mode: PlanMode = InputMode::PWM(None);
    assert!(matches!(
        mode.forward_with_speed(10),
        Err(Drv8873Error::InputError(_))
    ));
    assert!(matches!(
        mode.backward_with_speed(10),
        Err(Drv8873Error::InputError(_))
    ));
}
