//! The 2-byte register transaction: request framing and response
//! decoding.
//!
//! Every register access is exactly one 2-byte full-duplex exchange.
//! The functions here build the outgoing bytes and decode the incoming
//! ones; the caller owns the SPI transport and performs the exchange
//! itself.  Fault decoding is part of every response decode, so a
//! caller that goes through these functions cannot silently drop an
//! IC-reported fault.

use vstd::prelude::*;

verus! {

use crate::registers::{
    get_status, spec_read_command, spec_status, spec_write_command, CommandByte, FaultStatus,
    Register,
};

/// Outgoing bytes of a register read: the read command byte for the
/// register's address, then a dummy data byte.
pub fn read_request<R: Register>() -> (r: Vec<u8>)
    ensures
        r@ == seq![spec_read_command(R::spec_addr()), 0u8],
{
    let cb = CommandByte::read(R::addr());
    let mut buf: Vec<u8> = Vec::new();
    buf.push(cb.0);
    buf.push(0x00);
    proof {
        assert(buf@ =~= seq![spec_read_command(R::spec_addr()), 0u8]);
    }
    buf
}

/// Decode the 2-byte response of a register read: the second byte is
/// the register value, and the first is the status byte, decoded into
/// an optional fault on every access without exception.
pub fn decode_read_response<R: Register>(status_byte: u8, data_byte: u8) -> (r: (
    R,
    Option<FaultStatus>,
))
    ensures
        r.0 == R::spec_from_byte(data_byte),
        r.1 == spec_status(status_byte),
{
    (R::from_byte(data_byte), get_status(status_byte))
}

/// Outgoing bytes of a register write: the write command byte for the
/// register's address, then the register's encoded byte.
pub fn write_request<R: Register>(reg: &R) -> (r: Vec<u8>)
    ensures
        r@ == seq![spec_write_command(R::spec_addr()), reg.spec_byte()],
{
    let cb = CommandByte::write(R::addr());
    let mut buf: Vec<u8> = Vec::new();
    buf.push(cb.0);
    buf.push(reg.to_byte());
    proof {
        assert(buf@ =~= seq![spec_write_command(R::spec_addr()), reg.spec_byte()]);
    }
    buf
}

} // verus!
