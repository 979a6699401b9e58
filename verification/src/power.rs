//! The sleep/wake timing guard.
//!
//! The device's low-power state is driven by an optional sleep-control
//! output pin; with no pin assigned the device is permanently awake and
//! every transition is a no-op.  After toggling the pin, the IC demands
//! a minimum settling delay before communication is valid.  The
//! functions here compute, from the current state, which pin drive and
//! delay a transition must perform and the state it reaches; the caller
//! owns the pin and the clock and carries the plan out before touching
//! the SPI bus.  No SPI register transaction may be issued while the
//! device is asleep; callers must plan and perform a wake first — the
//! driver never wakes the device on a register access by itself.

use vstd::prelude::*;

verus! {

/// Minimum delay in microseconds after driving the sleep pin high
/// before communication is valid.
pub const T_WAKE_US: u32 = 1500;

/// Minimum delay in microseconds after driving the sleep pin low
/// before the device is in its low-power state.
pub const T_SLEEP_US: u32 = 50;

/// The device's power state as tracked by the driver.
#[derive(Debug, Clone, Copy, PartialEq, Eq, Structural)]
pub enum PowerState {
    Awake,
    Asleep,
}

/// What a sleep/wake transition does to the sleep pin.
#[derive(Debug, Clone, Copy, PartialEq, Eq, Structural)]
pub enum SleepPinAction {
    /// Leave the pin alone: the transition is a no-op.
    NoChange,
    /// Drive the pin high, waking the device.
    DriveHigh,
    /// Drive the pin low, putting the device to sleep.
    DriveLow,
}

/// A planned sleep/wake transition: the pin drive to perform, the
/// minimum delay in microseconds to suspend for afterwards, and the
/// power state reached.
#[derive(Debug, Clone, Copy, PartialEq, Eq, Structural)]
pub struct SleepPlan {
    pub action: SleepPinAction,
    pub delay_us: u32,
    pub next: PowerState,
}

/// The transition a wake request performs: drive the sleep pin high
/// and wait at least [`T_WAKE_US`] when the device is asleep and a pin
/// is assigned; otherwise nothing.
pub open spec fn spec_awaken_plan(state: PowerState, has_sleep_pin: bool) -> SleepPlan {
    if has_sleep_pin && state is Asleep {
        SleepPlan { action: SleepPinAction::DriveHigh, delay_us: T_WAKE_US, next: PowerState::Awake }
    } else {
        SleepPlan { action: SleepPinAction::NoChange, delay_us: 0, next: state }
    }
}

/// The transition a sleep request performs: drive the sleep pin low
/// and wait at least [`T_SLEEP_US`] when the device is awake and a pin
/// is assigned; otherwise nothing.
pub open spec fn spec_sleep_plan(state: PowerState, has_sleep_pin: bool) -> SleepPlan {
    if has_sleep_pin && state is Awake {
        SleepPlan { action: SleepPinAction::DriveLow, delay_us: T_SLEEP_US, next: PowerState::Asleep }
    } else {
        SleepPlan { action: SleepPinAction::NoChange, delay_us: 0, next: state }
    }
}

/// Plan a wake transition.  A pin drive and delay are issued only when
/// the current state is `Asleep` and a sleep pin is assigned; an
/// already-awake device, or one with no sleep pin, gets a no-op.
pub fn awaken_plan(state: PowerState, has_sleep_pin: bool) -> (r: SleepPlan)
    ensures
        r == spec_awaken_plan(state, has_sleep_pin),
        r.action is DriveHigh <==> (has_sleep_pin && state is Asleep),
        !(r.action is DriveLow),
        r.action is DriveHigh ==> r.delay_us == T_WAKE_US && r.next is Awake,
        r.action is NoChange ==> r.delay_us == 0 && r.next == state,
{
    if has_sleep_pin && matches!(state, PowerState::Asleep) {
        SleepPlan {
            action: SleepPinAction::DriveHigh,
            delay_us: T_WAKE_US,
            next: PowerState::Awake,
        }
    } else {
        SleepPlan { action: SleepPinAction::NoChange, delay_us: 0, next: state }
    }
}

/// Plan a sleep transition.  A pin drive and delay are issued only
/// when the current state is `Awake` and a sleep pin is assigned; an
/// already-asleep device, or one with no sleep pin, gets a no-op.
pub fn sleep_plan(state: PowerState, has_sleep_pin: bool) -> (r: SleepPlan)
    ensures
        r == spec_sleep_plan(state, has_sleep_pin),
        r.action is DriveLow <==> (has_sleep_pin && state is Awake),
        !(r.action is DriveHigh),
        r.action is DriveLow ==> r.delay_us == T_SLEEP_US && r.next is Asleep,
        r.action is NoChange ==> r.delay_us == 0 && r.next == state,
{
    if has_sleep_pin && matches!(state, PowerState::Awake) {
        SleepPlan {
            action: SleepPinAction::DriveLow,
            delay_us: T_SLEEP_US,
            next: PowerState::Asleep,
        }
    } else {
        SleepPlan { action: SleepPinAction::NoChange, delay_us: 0, next: state }
    }
}

/// Repeated transitions in the same direction are no-ops: a wake
/// planned right after a wake, or a sleep right after a sleep, touches
/// neither the pin nor the clock, whatever state the device started in
/// and whether or not a sleep pin is assigned.
pub proof fn lemma_sleep_wake_idempotent(state: PowerState, has_sleep_pin: bool)
    ensures
        spec_awaken_plan(spec_awaken_plan(state, has_sleep_pin).next, has_sleep_pin).action
            is NoChange,
        spec_sleep_plan(spec_sleep_plan(state, has_sleep_pin).next, has_sleep_pin).action
            is NoChange,
{
}

/// A device with no sleep pin is permanently awake: no transition ever
/// moves it out of `Awake`, and none touches a pin.
pub proof fn lemma_no_pin_stays_awake(state: PowerState)
    ensures
        state is Awake ==> spec_awaken_plan(state, false).next is Awake,
        state is Awake ==> spec_sleep_plan(state, false).next is Awake,
        spec_awaken_plan(state, false).action is NoChange,
        spec_sleep_plan(state, false).action is NoChange,
{
}

} // verus!
