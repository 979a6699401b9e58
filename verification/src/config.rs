//! The four-register configuration bundle.
//!
//! A configuration is written as four write transactions in strictly
//! ascending address order 0x02, 0x03, 0x04, 0x05 — discretely, or as
//! one batched transaction carrying the identical bytes.  A partial
//! write leaves the device and the in-memory value inconsistent, so a
//! caller must treat a transport error as "device state unknown".

use vstd::prelude::*;

verus! {

use crate::registers::{
    get_status, spec_read_command, spec_status, spec_write_command, CommandByte, ControlRegister1,
    ControlRegister2, ControlRegister3, ControlRegister4, FaultStatus, Register,
};

/// Holds the 4 control registers of the DRV8873 IC and the functions
/// that frame and decode their bulk transactions.  Can be used to
/// initialize a device to something other than default settings.
#[derive(Debug, Clone, Copy, PartialEq, Eq, Structural)]
pub struct DRV8873Config {
    pub cr1: ControlRegister1,
    pub cr2: ControlRegister2,
    pub cr3: ControlRegister3,
    pub cr4: ControlRegister4,
}

impl Default for DRV8873Config {
    /// Every control register at its IC-documented power-on value.
    fn default() -> (r: Self)
        ensures
            r.cr1 == ControlRegister1(0b01010001u8),
            r.cr2 == ControlRegister2(0b00001100u8),
            r.cr3 == ControlRegister3(0b01000000u8),
            r.cr4 == ControlRegister4(0b00001000u8),
    {
        Self {
            cr1: Default::default(),
            cr2: Default::default(),
            cr3: Default::default(),
            cr4: Default::default(),
        }
    }
}

impl DRV8873Config {
    /// On-wire bytes of a full configuration write: four command/value
    /// pairs, one per control register, in ascending address order.
    pub open spec fn spec_write_frames(&self) -> Seq<u8> {
        seq![
            spec_write_command(ControlRegister1::spec_addr()),
            self.cr1.0,
            spec_write_command(ControlRegister2::spec_addr()),
            self.cr2.0,
            spec_write_command(ControlRegister3::spec_addr()),
            self.cr3.0,
            spec_write_command(ControlRegister4::spec_addr()),
            self.cr4.0,
        ]
    }

    /// Build the outgoing bytes of a full configuration write: exactly
    /// 4 two-byte transactions in address order 0x02, 0x03, 0x04, 0x05.
    /// Sent as four discrete exchanges or as one batched exchange, the
    /// on-wire bytes are identical.
    pub fn write_config_frames(&self) -> (r: Vec<u8>)
        ensures
            r@ == self.spec_write_frames(),
            r@.len() == 8,
    {
        let mut buf: Vec<u8> = Vec::new();
        buf.push(CommandByte::write(ControlRegister1::addr()).0);
        buf.push(self.cr1.to_byte());
        buf.push(CommandByte::write(ControlRegister2::addr()).0);
        buf.push(self.cr2.to_byte());
        buf.push(CommandByte::write(ControlRegister3::addr()).0);
        buf.push(self.cr3.to_byte());
        buf.push(CommandByte::write(ControlRegister4::addr()).0);
        buf.push(self.cr4.to_byte());
        proof {
            assert(buf@ =~= self.spec_write_frames());
        }
        buf
    }

    /// On-wire bytes of a full configuration read: four read
    /// command/dummy pairs, one per control register, in ascending
    /// address order.
    pub open spec fn spec_read_frames() -> Seq<u8> {
        seq![
            spec_read_command(ControlRegister1::spec_addr()),
            0u8,
            spec_read_command(ControlRegister2::spec_addr()),
            0u8,
            spec_read_command(ControlRegister3::spec_addr()),
            0u8,
            spec_read_command(ControlRegister4::spec_addr()),
            0u8,
        ]
    }

    /// Build the outgoing bytes of a full configuration read: exactly
    /// 4 two-byte transactions in address order 0x02, 0x03, 0x04, 0x05.
    /// Reading never mutates the device.
    pub fn read_config_frames() -> (r: Vec<u8>)
        ensures
            r@ == Self::spec_read_frames(),
            r@.len() == 8,
    {
        let mut buf: Vec<u8> = Vec::new();
        buf.push(CommandByte::read(ControlRegister1::addr()).0);
        buf.push(0x00);
        buf.push(CommandByte::read(ControlRegister2::addr()).0);
        buf.push(0x00);
        buf.push(CommandByte::read(ControlRegister3::addr()).0);
        buf.push(0x00);
        buf.push(CommandByte::read(ControlRegister4::addr()).0);
        buf.push(0x00);
        proof {
            assert(buf@ =~= Self::spec_read_frames());
        }
        buf
    }

    /// Assemble a configuration from the four register-value bytes a
    /// configuration read returned, in the same ascending address
    /// order.
    pub fn from_register_bytes(b1: u8, b2: u8, b3: u8, b4: u8) -> (r: Self)
        ensures
            r.cr1 == ControlRegister1(b1),
            r.cr2 == ControlRegister2(b2),
            r.cr3 == ControlRegister3(b3),
            r.cr4 == ControlRegister4(b4),
    {
        Self {
            cr1: ControlRegister1::from_byte(b1),
            cr2: ControlRegister2::from_byte(b2),
            cr3: ControlRegister3::from_byte(b3),
            cr4: ControlRegister4::from_byte(b4),
        }
    }

    /// The first fault among the four status bytes of a bulk
    /// transaction, in transaction order; no fault if all four carry
    /// the "OK" marker.
    pub open spec fn spec_first_fault(s1: u8, s2: u8, s3: u8, s4: u8) -> Option<FaultStatus> {
        if spec_status(s1) is Some {
            spec_status(s1)
        } else if spec_status(s2) is Some {
            spec_status(s2)
        } else if spec_status(s3) is Some {
            spec_status(s3)
        } else {
            spec_status(s4)
        }
    }

    /// Aggregate the four status bytes a configuration write or read
    /// returned: the first reported fault in transaction order, if any.
    /// Registers already written before a faulting transaction remain
    /// written.
    pub fn aggregate_status(s1: u8, s2: u8, s3: u8, s4: u8) -> (r: Option<FaultStatus>)
        ensures
            r == Self::spec_first_fault(s1, s2, s3, s4),
            r is None <==> (spec_status(s1) is None && spec_status(s2) is None && spec_status(s3)
                is None && spec_status(s4) is None),
    {
        let r1 = get_status(s1);
        if r1.is_some() {
            return r1;
        }
        let r2 = get_status(s2);
        if r2.is_some() {
            return r2;
        }
        let r3 = get_status(s3);
        if r3.is_some() {
            return r3;
        }
        get_status(s4)
    }
}

} // verus!
