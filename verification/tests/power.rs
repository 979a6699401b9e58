use drv8873::power::{
    awaken_plan, sleep_plan, PowerState, SleepPinAction, T_SLEEP_US, T_WAKE_US,
};

#[test]
fn awaken_from_asleep_drives_high_and_waits() {
    let plan = awaken_plan(PowerState::Asleep, true);
    assert_eq!(plan.action, SleepPinAction::DriveHigh);
    assert_eq!(plan.delay_us, T_WAKE_US);
    assert_eq!(plan.delay_us, 1500);
    assert_eq!(plan.next, PowerState::Awake);
}

#[test]
fn awaken_when_awake_is_noop() {
    let plan = awaken_plan(PowerState::Awake, true);
    assert_eq!(plan.action, SleepPinAction::NoChange);
    assert_eq!(plan.delay_us, 0);
    assert_eq!(plan.next, PowerState::Awake);
}

#[test]
fn sleep_from_awake_drives_low_and_waits() {
    let plan = sleep_plan(PowerState::Awake, true);
    assert_eq!(plan.action, SleepPinAction::DriveLow);
    assert_eq!(plan.delay_us, T_SLEEP_US);
    assert_eq!(plan.delay_us, 50);
    assert_eq!(plan.next, PowerState::Asleep);
}

#[test]
fn sleep_when_asleep_is_noop() {
    let plan = sleep_plan(PowerState::Asleep, true);
    assert_eq!(plan.action, SleepPinAction::NoChange);
    assert_eq!(plan.delay_us, 0);
    assert_eq!(plan.next, PowerState::Asleep);
}

#[test]
fn no_sleep_pin_means_permanently_awake() {
    let plan = awaken_plan(PowerState::Awake, false);
    assert_eq!(plan.action, SleepPinAction::NoChange);
    assert_eq!(plan.next, PowerState::Awake);
    let plan = sleep_plan(PowerState::Awake, false);
    assert_eq!(plan.action, SleepPinAction::NoChange);
    assert_eq!(plan.next, PowerState::Awake);
}

#[test]
fn repeated_transitions_are_noops() {
    // wake twice: the second wake issues zero pin transactions
    let first = awaken_plan(PowerState::Asleep, true);
    let second = awaken_plan(first.next, true);
    assert_eq!(second.action, SleepPinAction::NoChange);
    assert_eq!(second.delay_us, 0);

    // sleep twice: likewise
    let first = sleep_plan(PowerState::Awake, true);
    let second = sleep_plan(first.next, true);
    assert_eq!(second.action, SleepPinAction::NoChange);
    assert_eq!(second.delay_us, 0);
}
