//! Register access protocol layer for the DRV8873 dual H-bridge motor
//! driver IC.
//!
//! The DRV8873 is controlled over a 2-byte SPI exchange per register
//! access: a command byte (address and read/write flag) followed by a
//! data byte.  This crate holds the verified protocol logic: command-byte
//! framing, bit-field encode/decode for the six registers, fault-status
//! extraction from every status byte, the four-register configuration
//! bundle, and the sleep/wake timing plan.  The SPI transport and the
//! GPIO/PWM pins themselves are external collaborators: callers perform
//! the byte exchanges and pin writes that the functions here plan and
//! decode.

use vstd::prelude::*;

pub mod config;
pub mod inputs;
pub mod power;
pub mod protocol;
pub mod registers;

pub use crate::config::DRV8873Config;
pub use crate::registers::{
    ControlRegister1, ControlRegister2, ControlRegister3, ControlRegister4, ITrip, ITripLvl, Lock,
    Mode, OcpMode, OcpTRetry, RiseTime, Toff,
};

verus! {

use crate::registers::FaultStatus;

/// Errors surfaced by driver operations.
///
/// `Drv8873Fault` carries a fault reported by the IC in a status byte;
/// `SpiError` is a failed transport exchange; `SleepError` is a failed
/// sleep-pin operation (the device's power state is then unknown);
/// `InputError` is caller misuse detected before any transport access.
#[derive(Debug)]
pub enum Drv8873Error {
    Drv8873Fault(FaultStatus),
    SpiError(),
    SleepError(),
    InputError(&'static str),
}

} // verus!
