//! Command-byte framing, status decoding, and the six DRV8873 registers.
//!
//! Every register access is one 2-byte full-duplex SPI exchange: a
//! command byte (address and read/write flag) plus a data byte out, a
//! status byte plus a register-value byte back.  The types here hold a
//! register's raw byte verbatim — reserved bits included — and decode
//! its bit fields on demand, so encode/decode round-trips losslessly.

use vstd::prelude::*;

verus! {

/// Command byte of a write transaction: bits 5..1 hold the 5-bit
/// register address, bit 6 (the read flag) is clear.
pub open spec fn spec_write_command(addr: u8) -> u8 {
    (addr & 0x1f) << 1
}

/// Command byte of a read transaction: bits 5..1 hold the 5-bit
/// register address, bit 6 (the read flag) is set.
pub open spec fn spec_read_command(addr: u8) -> u8 {
    ((addr & 0x1f) << 1) | 0x40
}

/// The first byte of every SPI exchange, encoding the target register
/// address and the read/write direction.
#[derive(Debug, Clone, Copy, PartialEq, Eq, Structural)]
pub struct CommandByte(pub u8);

impl CommandByte {
    /// Construct a write command byte to the specified address.
    pub fn write(addr: u8) -> (r: Self)
        ensures
            r.0 == spec_write_command(addr),
    {
        Self((addr & 0x1f) << 1)
    }

    /// Construct a read command byte to the specified address.
    pub fn read(addr: u8) -> (r: Self)
        ensures
            r.0 == spec_read_command(addr),
    {
        Self(((addr & 0x1f) << 1) | 0x40)
    }
}

/// For every address, a read command sets the read flag (bit 6), a write
/// command clears it, both leave bits 0 and 7 clear, and the address
/// field (bits 5..1) of either command equals the address masked to 5
/// bits.
pub proof fn lemma_command_byte_fields(addr: u8)
    by (bit_vector)
    ensures
        spec_read_command(addr) & 0x40 == 0x40,
        spec_write_command(addr) & 0x40 == 0,
        spec_read_command(addr) == spec_write_command(addr) | 0x40,
        (spec_write_command(addr) >> 1) & 0x1f == addr & 0x1f,
        (spec_read_command(addr) >> 1) & 0x1f == addr & 0x1f,
        spec_write_command(addr) & 0x81 == 0,
        spec_read_command(addr) & 0x81 == 0,
{
}

/// Fault reported by a status byte: `0b11000000` (the fixed "OK" marker
/// in bits 7..6, no fault bits) decodes to no fault; any other value
/// decodes to a `FaultStatus` holding its low 6 bits.
pub open spec fn spec_status(status_byte: u8) -> Option<FaultStatus> {
    if status_byte == 0b11000000 {
        None
    } else {
        Some(FaultStatus(status_byte & 0b00111111))
    }
}

/// The status byte should have its 2 most significant bits set, the
/// other 6 correspond to faults as described in the [`FaultStatus`]
/// register.  Applied to the first response byte of every transaction.
pub fn get_status(status_byte: u8) -> (r: Option<FaultStatus>)
    ensures
        r == spec_status(status_byte),
{
    if status_byte != 0b11000000 {
        Some(FaultStatus(status_byte & 0b00111111))
    } else {
        None
    }
}

/// Lossless conversion between a register's in-memory representation
/// and its raw byte, and the register's fixed SPI address.
pub trait Register: Sized {
    /// The register's address in the IC's register map.
    spec fn spec_addr() -> u8;

    /// The raw byte this value encodes to.
    spec fn spec_byte(&self) -> u8;

    /// The value a raw byte decodes to.
    spec fn spec_from_byte(byte: u8) -> Self;

    /// Decoding a byte and encoding the result gives the byte back:
    /// every bit, reserved ones included, is preserved verbatim.
    proof fn lemma_round_trip(byte: u8)
        ensures
            Self::spec_from_byte(byte).spec_byte() == byte,
    ;

    /// The register's address in the IC's register map.
    fn addr() -> (r: u8)
        ensures
            r == Self::spec_addr(),
    ;

    /// Decode a raw byte, preserving it verbatim.
    fn from_byte(byte: u8) -> (r: Self)
        ensures
            r == Self::spec_from_byte(byte),
            r.spec_byte() == byte,
    ;

    /// Encode to the raw byte.
    fn to_byte(&self) -> (r: u8)
        ensures
            r == self.spec_byte(),
    ;
}

/// Fault status register (address 0x00, read-only): 7 fault flag bits,
/// bit 7 reserved.
#[derive(Debug, Clone, Copy, PartialEq, Eq, Structural)]
pub struct FaultStatus(pub u8);

impl Register for FaultStatus {
    open spec fn spec_addr() -> u8 {
        0x00
    }

    open spec fn spec_byte(&self) -> u8 {
        self.0
    }

    open spec fn spec_from_byte(byte: u8) -> Self {
        FaultStatus(byte)
    }

    proof fn lemma_round_trip(byte: u8) {
    }

    fn addr() -> u8 {
        0x00
    }

    fn from_byte(byte: u8) -> Self {
        Self(byte)
    }

    fn to_byte(&self) -> u8 {
        self.0
    }
}

impl Default for FaultStatus {
    /// Power-on value: no fault flags set.
    fn default() -> (r: Self)
        ensures
            r == FaultStatus(0u8),
    {
        Self(0)
    }
}

impl FaultStatus {
    /// Open-load detection flag.
    pub open spec fn spec_ol(&self) -> bool {
        self.0 & 0x01 != 0
    }

    /// Open-load detection flag.
    pub fn ol(&self) -> (r: bool)
        ensures
            r == self.spec_ol(),
    {
        self.0 & 0x01 != 0
    }

    /// Overtemperature shutdown flag.
    pub open spec fn spec_tsd(&self) -> bool {
        self.0 & 0x02 != 0
    }

    /// Overtemperature shutdown flag.
    pub fn tsd(&self) -> (r: bool)
        ensures
            r == self.spec_tsd(),
    {
        self.0 & 0x02 != 0
    }

    /// Overcurrent condition flag.
    pub open spec fn spec_ocp(&self) -> bool {
        self.0 & 0x04 != 0
    }

    /// Overcurrent condition flag.
    pub fn ocp(&self) -> (r: bool)
        ensures
            r == self.spec_ocp(),
    {
        self.0 & 0x04 != 0
    }

    /// Charge-pump undervoltage fault condition flag.
    pub open spec fn spec_cpuv(&self) -> bool {
        self.0 & 0x08 != 0
    }

    /// Charge-pump undervoltage fault condition flag.
    pub fn cpuv(&self) -> (r: bool)
        ensures
            r == self.spec_cpuv(),
    {
        self.0 & 0x08 != 0
    }

    /// UVLO fault condition flag.
    pub open spec fn spec_uvlo(&self) -> bool {
        self.0 & 0x10 != 0
    }

    /// UVLO fault condition flag.
    pub fn uvlo(&self) -> (r: bool)
        ensures
            r == self.spec_uvlo(),
    {
        self.0 & 0x10 != 0
    }

    /// Overtemperature warning flag.
    pub open spec fn spec_otw(&self) -> bool {
        self.0 & 0x20 != 0
    }

    /// Overtemperature warning flag.
    pub fn otw(&self) -> (r: bool)
        ensures
            r == self.spec_otw(),
    {
        self.0 & 0x20 != 0
    }

    /// Global fault status flag.  Complements the nFAULT pin.
    pub open spec fn spec_fault(&self) -> bool {
        self.0 & 0x40 != 0
    }

    /// Global fault status flag.  Complements the nFAULT pin.
    pub fn fault(&self) -> (r: bool)
        ensures
            r == self.spec_fault(),
    {
        self.0 & 0x40 != 0
    }
}

/// Diagnostic status register (address 0x01, read-only): 8 flag bits
/// describing per-half-bridge overcurrent, open-load and
/// current-regulation state.
#[derive(Debug, Clone, Copy, PartialEq, Eq, Structural)]
pub struct DiagnosticStatus(pub u8);

impl Register for DiagnosticStatus {
    open spec fn spec_addr() -> u8 {
        0x01
    }

    open spec fn spec_byte(&self) -> u8 {
        self.0
    }

    open spec fn spec_from_byte(byte: u8) -> Self {
        DiagnosticStatus(byte)
    }

    proof fn lemma_round_trip(byte: u8) {
    }

    fn addr() -> u8 {
        0x01
    }

    fn from_byte(byte: u8) -> Self {
        Self(byte)
    }

    fn to_byte(&self) -> u8 {
        self.0
    }
}

impl Default for DiagnosticStatus {
    /// Power-on value: no diagnostic flags set.
    fn default() -> (r: Self)
        ensures
            r == DiagnosticStatus(0u8),
    {
        Self(0)
    }
}

impl DiagnosticStatus {
    /// Indicates overcurrent fault on the low-side FET of half bridge 2.
    pub open spec fn spec_ocp_l2(&self) -> bool {
        self.0 & 0x01 != 0
    }

    /// Indicates overcurrent fault on the low-side FET of half bridge 2.
    pub fn ocp_l2(&self) -> (r: bool)
        ensures
            r == self.spec_ocp_l2(),
    {
        self.0 & 0x01 != 0
    }

    /// Indicates overcurrent fault on the high-side FET of half bridge 2.
    pub open spec fn spec_ocp_h2(&self) -> bool {
        self.0 & 0x02 != 0
    }

    /// Indicates overcurrent fault on the high-side FET of half bridge 2.
    pub fn ocp_h2(&self) -> (r: bool)
        ensures
            r == self.spec_ocp_h2(),
    {
        self.0 & 0x02 != 0
    }

    /// Indicates overcurrent fault on the low-side FET of half bridge 1.
    pub open spec fn spec_ocp_l1(&self) -> bool {
        self.0 & 0x04 != 0
    }

    /// Indicates overcurrent fault on the low-side FET of half bridge 1.
    pub fn ocp_l1(&self) -> (r: bool)
        ensures
            r == self.spec_ocp_l1(),
    {
        self.0 & 0x04 != 0
    }

    /// Indicates overcurrent fault on the high-side FET of half bridge 1.
    pub open spec fn spec_ocp_h1(&self) -> bool {
        self.0 & 0x08 != 0
    }

    /// Indicates overcurrent fault on the high-side FET of half bridge 1.
    pub fn ocp_h1(&self) -> (r: bool)
        ensures
            r == self.spec_ocp_h1(),
    {
        self.0 & 0x08 != 0
    }

    /// Indicates output 2 is in current regulation.
    pub open spec fn spec_itrip2(&self) -> bool {
        self.0 & 0x10 != 0
    }

    /// Indicates output 2 is in current regulation.
    pub fn itrip2(&self) -> (r: bool)
        ensures
            r == self.spec_itrip2(),
    {
        self.0 & 0x10 != 0
    }

    /// Indicates output 1 is in current regulation.
    pub open spec fn spec_itrip1(&self) -> bool {
        self.0 & 0x20 != 0
    }

    /// Indicates output 1 is in current regulation.
    pub fn itrip1(&self) -> (r: bool)
        ensures
            r == self.spec_itrip1(),
    {
        self.0 & 0x20 != 0
    }

    /// Indicates open-load detection on half bridge 2.
    pub open spec fn spec_ol2(&self) -> bool {
        self.0 & 0x40 != 0
    }

    /// Indicates open-load detection on half bridge 2.
    pub fn ol2(&self) -> (r: bool)
        ensures
            r == self.spec_ol2(),
    {
        self.0 & 0x40 != 0
    }

    /// Indicates open-load detection on half bridge 1.
    pub open spec fn spec_ol1(&self) -> bool {
        self.0 & 0x80 != 0
    }

    /// Indicates open-load detection on half bridge 1.
    pub fn ol1(&self) -> (r: bool)
        ensures
            r == self.spec_ol1(),
    {
        self.0 & 0x80 != 0
    }
}

/// Determines the off time set in [`ControlRegister1`].
#[derive(Debug, Clone, Copy, PartialEq, Eq, Structural)]
pub enum Toff {
    Us20,
    Us40,
    Us60,
    Us80,
}

impl Toff {
    /// Field encoding of this variant.
    pub open spec fn spec_bits(self) -> u8 {
        match self {
            Toff::Us20 => 0b00,
            Toff::Us40 => 0b01,
            Toff::Us60 => 0b10,
            Toff::Us80 => 0b11,
        }
    }

    /// Field encoding of this variant.
    pub fn to_bits(self) -> (r: u8)
        ensures
            r == self.spec_bits(),
    {
        match self {
            Toff::Us20 => 0b00,
            Toff::Us40 => 0b01,
            Toff::Us60 => 0b10,
            Toff::Us80 => 0b11,
        }
    }

    /// Variant of a field value.
    pub open spec fn spec_from_bits(bits: u8) -> Toff {
        if bits == 0b00 {
            Toff::Us20
        } else if bits == 0b01 {
            Toff::Us40
        } else if bits == 0b10 {
            Toff::Us60
        } else {
            Toff::Us80
        }
    }

    /// Variant of a field value.
    pub fn from_bits(bits: u8) -> (r: Toff)
        ensures
            r == Toff::spec_from_bits(bits),
    {
        if bits == 0b00 {
            Toff::Us20
        } else if bits == 0b01 {
            Toff::Us40
        } else if bits == 0b10 {
            Toff::Us60
        } else {
            Toff::Us80
        }
    }

    /// Encoding then decoding a variant gives it back, and every
    /// encoding fits the 2-bit field.
    pub proof fn lemma_bits_inverse(self)
        ensures
            Toff::spec_from_bits(self.spec_bits()) == self,
            self.spec_bits() <= 3,
    {
    }
}

impl Default for Toff {
    /// Power-on value.
    fn default() -> (r: Self)
        ensures
            r == Toff::Us40,
    {
        Toff::Us40
    }
}

/// Determines the rise time set in [`ControlRegister1`].
#[derive(Debug, Clone, Copy, PartialEq, Eq, Structural)]
pub enum RiseTime {
    VoltPerUs53_2,
    VoltPerUs34_0,
    VoltPerUs18_3,
    VoltPerUs13_0,
    VoltPerUs10_8,
    VoltPerUs7_9,
    VoltPerUs5_3,
    VoltPerUs2_6,
}

impl RiseTime {
    /// Field encoding of this variant.
    pub open spec fn spec_bits(self) -> u8 {
        match self {
            RiseTime::VoltPerUs53_2 => 0b000,
            RiseTime::VoltPerUs34_0 => 0b001,
            RiseTime::VoltPerUs18_3 => 0b010,
            RiseTime::VoltPerUs13_0 => 0b011,
            RiseTime::VoltPerUs10_8 => 0b100,
            RiseTime::VoltPerUs7_9 => 0b101,
            RiseTime::VoltPerUs5_3 => 0b110,
            RiseTime::VoltPerUs2_6 => 0b111,
        }
    }

    /// Field encoding of this variant.
    pub fn to_bits(self) -> (r: u8)
        ensures
            r == self.spec_bits(),
    {
        match self {
            RiseTime::VoltPerUs53_2 => 0b000,
            RiseTime::VoltPerUs34_0 => 0b001,
            RiseTime::VoltPerUs18_3 => 0b010,
            RiseTime::VoltPerUs13_0 => 0b011,
            RiseTime::VoltPerUs10_8 => 0b100,
            RiseTime::VoltPerUs7_9 => 0b101,
            RiseTime::VoltPerUs5_3 => 0b110,
            RiseTime::VoltPerUs2_6 => 0b111,
        }
    }

    /// Variant of a field value.
    pub open spec fn spec_from_bits(bits: u8) -> RiseTime {
        if bits == 0b000 {
            RiseTime::VoltPerUs53_2
        } else if bits == 0b001 {
            RiseTime::VoltPerUs34_0
        } else if bits == 0b010 {
            RiseTime::VoltPerUs18_3
        } else if bits == 0b011 {
            RiseTime::VoltPerUs13_0
        } else if bits == 0b100 {
            RiseTime::VoltPerUs10_8
        } else if bits == 0b101 {
            RiseTime::VoltPerUs7_9
        } else if bits == 0b110 {
            RiseTime::VoltPerUs5_3
        } else {
            RiseTime::VoltPerUs2_6
        }
    }

    /// Variant of a field value.
    pub fn from_bits(bits: u8) -> (r: RiseTime)
        ensures
            r == RiseTime::spec_from_bits(bits),
    {
        if bits == 0b000 {
            RiseTime::VoltPerUs53_2
        } else if bits == 0b001 {
            RiseTime::VoltPerUs34_0
        } else if bits == 0b010 {
            RiseTime::VoltPerUs18_3
        } else if bits == 0b011 {
            RiseTime::VoltPerUs13_0
        } else if bits == 0b100 {
            RiseTime::VoltPerUs10_8
        } else if bits == 0b101 {
            RiseTime::VoltPerUs7_9
        } else if bits == 0b110 {
            RiseTime::VoltPerUs5_3
        } else {
            RiseTime::VoltPerUs2_6
        }
    }

    /// Encoding then decoding a variant gives it back, and every
    /// encoding fits the 3-bit field.
    pub proof fn lemma_bits_inverse(self)
        ensures
            RiseTime::spec_from_bits(self.spec_bits()) == self,
            self.spec_bits() <= 7,
    {
    }
}

impl Default for RiseTime {
    /// Power-on value.
    fn default() -> (r: Self)
        ensures
            r == RiseTime::VoltPerUs10_8,
    {
        RiseTime::VoltPerUs10_8
    }
}

/// Determines the device mode set in [`ControlRegister1`].
#[derive(Debug, Clone, Copy, PartialEq, Eq, Structural)]
pub enum Mode {
    PhaseEnable,
    PWM,
    IndependentHalfBridge,
    InputDisabled,
}

impl Mode {
    /// Field encoding of this variant.
    pub open spec fn spec_bits(self) -> u8 {
        match self {
            Mode::PhaseEnable => 0b00,
            Mode::PWM => 0b01,
            Mode::IndependentHalfBridge => 0b10,
            Mode::InputDisabled => 0b11,
        }
    }

    /// Field encoding of this variant.
    pub fn to_bits(self) -> (r: u8)
        ensures
            r == self.spec_bits(),
    {
        match self {
            Mode::PhaseEnable => 0b00,
            Mode::PWM => 0b01,
            Mode::IndependentHalfBridge => 0b10,
            Mode::InputDisabled => 0b11,
        }
    }

    /// Variant of a field value.
    pub open spec fn spec_from_bits(bits: u8) -> Mode {
        if bits == 0b00 {
            Mode::PhaseEnable
        } else if bits == 0b01 {
            Mode::PWM
        } else if bits == 0b10 {
            Mode::IndependentHalfBridge
        } else {
            Mode::InputDisabled
        }
    }

    /// Variant of a field value.
    pub fn from_bits(bits: u8) -> (r: Mode)
        ensures
            r == Mode::spec_from_bits(bits),
    {
        if bits == 0b00 {
            Mode::PhaseEnable
        } else if bits == 0b01 {
            Mode::PWM
        } else if bits == 0b10 {
            Mode::IndependentHalfBridge
        } else {
            Mode::InputDisabled
        }
    }

    /// Encoding then decoding a variant gives it back, and every
    /// encoding fits the 2-bit field.
    pub proof fn lemma_bits_inverse(self)
        ensures
            Mode::spec_from_bits(self.spec_bits()) == self,
            self.spec_bits() <= 3,
    {
    }
}

impl Default for Mode {
    /// Power-on value.
    fn default() -> (r: Self)
        ensures
            r == Mode::PWM,
    {
        Mode::PWM
    }
}

/// Control register 1 (address 0x02, read/write): input mode, rise
/// time, SPI-controlled outputs, off time.
#[derive(Debug, Clone, Copy, PartialEq, Eq, Structural)]
pub struct ControlRegister1(pub u8);

impl Register for ControlRegister1 {
    open spec fn spec_addr() -> u8 {
        0x02
    }

    open spec fn spec_byte(&self) -> u8 {
        self.0
    }

    open spec fn spec_from_byte(byte: u8) -> Self {
        ControlRegister1(byte)
    }

    proof fn lemma_round_trip(byte: u8) {
    }

    fn addr() -> u8 {
        0x02
    }

    fn from_byte(byte: u8) -> Self {
        Self(byte)
    }

    fn to_byte(&self) -> u8 {
        self.0
    }
}

impl Default for ControlRegister1 {
    /// Power-on value `0b01010001`: PWM mode, 10.8 V/µs rise time,
    /// 40 µs off time, outputs following the input pins.
    fn default() -> (r: Self)
        ensures
            r == ControlRegister1(0b01010001u8),
            r.spec_mode() == Mode::PWM,
            r.spec_sr() == RiseTime::VoltPerUs10_8,
            r.spec_toff() == Toff::Us40,
            !r.spec_spi_in(),
    {
        proof {
            assert(0b01010001u8 & 0b11 == 0b01 && (0b01010001u8 >> 2) & 0b111 == 0b100
                && (0b01010001u8 >> 6) & 0b11 == 0b01 && 0b01010001u8 & 0x20 == 0)
                by (bit_vector);
        }
        Self(0b01010001)
    }
}

impl ControlRegister1 {
    /// The input [`Mode`] (bits 1..0).
    pub open spec fn spec_mode(&self) -> Mode {
        Mode::spec_from_bits(self.0 & 0b11)
    }

    /// The input [`Mode`] (bits 1..0).
    pub fn mode(&self) -> (r: Mode)
        ensures
            r == self.spec_mode(),
    {
        Mode::from_bits(self.0 & 0b11)
    }

    /// Set the input [`Mode`].
    pub fn set_mode(&mut self, mode: Mode)
        ensures
            final(self).0 == (old(self).0 & 0xfc) | mode.spec_bits(),
            final(self).spec_mode() == mode,
    {
        let bits: u8 = mode.to_bits();
        self.0 = (self.0 & 0xfc) | bits;
        proof {
            mode.lemma_bits_inverse();
            let o: u8 = old(self).0;
            let b: u8 = mode.spec_bits();
            assert(((o & 0xfc) | b) & 0b11 == b) by (bit_vector)
                requires
                    b <= 3,
            ;
        }
    }

    /// The [`RiseTime`] (bits 4..2).
    pub open spec fn spec_sr(&self) -> RiseTime {
        RiseTime::spec_from_bits((self.0 >> 2) & 0b111)
    }

    /// The [`RiseTime`] (bits 4..2).
    pub fn sr(&self) -> (r: RiseTime)
        ensures
            r == self.spec_sr(),
    {
        RiseTime::from_bits((self.0 >> 2) & 0b111)
    }

    /// Set the [`RiseTime`].
    pub fn set_sr(&mut self, sr: RiseTime)
        ensures
            final(self).0 == (old(self).0 & 0xe3) | (sr.spec_bits() << 2),
            final(self).spec_sr() == sr,
    {
        let bits: u8 = sr.to_bits();
        self.0 = (self.0 & 0xe3) | (bits << 2);
        proof {
            sr.lemma_bits_inverse();
            let o: u8 = old(self).0;
            let b: u8 = sr.spec_bits();
            assert((((o & 0xe3) | (b << 2)) >> 2) & 0b111 == b) by (bit_vector)
                requires
                    b <= 7,
            ;
        }
    }

    /// Whether the outputs follow the SPI registers (bit 5 set) rather
    /// than the input pins (bit 5 clear).
    pub open spec fn spec_spi_in(&self) -> bool {
        self.0 & 0x20 != 0
    }

    /// Whether the outputs follow the SPI registers (bit 5 set) rather
    /// than the input pins (bit 5 clear).
    pub fn spi_in(&self) -> (r: bool)
        ensures
            r == self.spec_spi_in(),
    {
        self.0 & 0x20 != 0
    }

    /// Set whether the outputs follow the SPI registers
    /// ([`ControlRegister3`]'s EN/IN1 and PH/IN2 bits) or the input
    /// pins.
    pub fn set_spi_in(&mut self, v: bool)
        ensures
            final(self).0 == (if v {
                old(self).0 | 0x20
            } else {
                old(self).0 & 0xdf
            }),
            final(self).spec_spi_in() == v,
    {
        if v {
            self.0 = self.0 | 0x20;
        } else {
            self.0 = self.0 & 0xdf;
        }
        proof {
            let o: u8 = old(self).0;
            assert((o | 0x20) & 0x20 != 0 && (o & 0xdf) & 0x20 == 0) by (bit_vector);
        }
    }

    /// The off time [`Toff`] (bits 7..6).
    pub open spec fn spec_toff(&self) -> Toff {
        Toff::spec_from_bits((self.0 >> 6) & 0b11)
    }

    /// The off time [`Toff`] (bits 7..6).
    pub fn toff(&self) -> (r: Toff)
        ensures
            r == self.spec_toff(),
    {
        Toff::from_bits((self.0 >> 6) & 0b11)
    }

    /// Set the off time [`Toff`].
    pub fn set_toff(&mut self, toff: Toff)
        ensures
            final(self).0 == (old(self).0 & 0x3f) | (toff.spec_bits() << 6),
            final(self).spec_toff() == toff,
    {
        let bits: u8 = toff.to_bits();
        self.0 = (self.0 & 0x3f) | (bits << 6);
        proof {
            toff.lemma_bits_inverse();
            let o: u8 = old(self).0;
            let b: u8 = toff.spec_bits();
            assert((((o & 0x3f) | (b << 6)) >> 6) & 0b11 == b) by (bit_vector)
                requires
                    b <= 3,
            ;
        }
    }
}

/// Overcurrent condition handling mode set in [`ControlRegister2`].
#[derive(Debug, Clone, Copy, PartialEq, Eq, Structural)]
pub enum OcpMode {
    LatchedFault,
    AutomaticRetry,
    ReportOnly,
    NoAction,
}

impl OcpMode {
    /// Field encoding of this variant.
    pub open spec fn spec_bits(self) -> u8 {
        match self {
            OcpMode::LatchedFault => 0b00,
            OcpMode::AutomaticRetry => 0b01,
            OcpMode::ReportOnly => 0b10,
            OcpMode::NoAction => 0b11,
        }
    }

    /// Field encoding of this variant.
    pub fn to_bits(self) -> (r: u8)
        ensures
            r == self.spec_bits(),
    {
        match self {
            OcpMode::LatchedFault => 0b00,
            OcpMode::AutomaticRetry => 0b01,
            OcpMode::ReportOnly => 0b10,
            OcpMode::NoAction => 0b11,
        }
    }

    /// Variant of a field value.
    pub open spec fn spec_from_bits(bits: u8) -> OcpMode {
        if bits == 0b00 {
            OcpMode::LatchedFault
        } else if bits == 0b01 {
            OcpMode::AutomaticRetry
        } else if bits == 0b10 {
            OcpMode::ReportOnly
        } else {
            OcpMode::NoAction
        }
    }

    /// Variant of a field value.
    pub fn from_bits(bits: u8) -> (r: OcpMode)
        ensures
            r == OcpMode::spec_from_bits(bits),
    {
        if bits == 0b00 {
            OcpMode::LatchedFault
        } else if bits == 0b01 {
            OcpMode::AutomaticRetry
        } else if bits == 0b10 {
            OcpMode::ReportOnly
        } else {
            OcpMode::NoAction
        }
    }

    /// Encoding then decoding a variant gives it back, and every
    /// encoding fits the 2-bit field.
    pub proof fn lemma_bits_inverse(self)
        ensures
            OcpMode::spec_from_bits(self.spec_bits()) == self,
            self.spec_bits() <= 3,
    {
    }
}

impl Default for OcpMode {
    /// Power-on value.
    fn default() -> (r: Self)
        ensures
            r == OcpMode::LatchedFault,
    {
        OcpMode::LatchedFault
    }
}

/// Overcurrent retry time set in [`ControlRegister2`].
#[derive(Debug, Clone, Copy, PartialEq, Eq, Structural)]
pub enum OcpTRetry {
    Ms0_5,
    Ms1,
    Ms2,
    Ms4,
}

impl OcpTRetry {
    /// Field encoding of this variant.
    pub open spec fn spec_bits(self) -> u8 {
        match self {
            OcpTRetry::Ms0_5 => 0b00,
            OcpTRetry::Ms1 => 0b01,
            OcpTRetry::Ms2 => 0b10,
            OcpTRetry::Ms4 => 0b11,
        }
    }

    /// Field encoding of this variant.
    pub fn to_bits(self) -> (r: u8)
        ensures
            r == self.spec_bits(),
    {
        match self {
            OcpTRetry::Ms0_5 => 0b00,
            OcpTRetry::Ms1 => 0b01,
            OcpTRetry::Ms2 => 0b10,
            OcpTRetry::Ms4 => 0b11,
        }
    }

    /// Variant of a field value.
    pub open spec fn spec_from_bits(bits: u8) -> OcpTRetry {
        if bits == 0b00 {
            OcpTRetry::Ms0_5
        } else if bits == 0b01 {
            OcpTRetry::Ms1
        } else if bits == 0b10 {
            OcpTRetry::Ms2
        } else {
            OcpTRetry::Ms4
        }
    }

    /// Variant of a field value.
    pub fn from_bits(bits: u8) -> (r: OcpTRetry)
        ensures
            r == OcpTRetry::spec_from_bits(bits),
    {
        if bits == 0b00 {
            OcpTRetry::Ms0_5
        } else if bits == 0b01 {
            OcpTRetry::Ms1
        } else if bits == 0b10 {
            OcpTRetry::Ms2
        } else {
            OcpTRetry::Ms4
        }
    }

    /// Encoding then decoding a variant gives it back, and every
    /// encoding fits the 2-bit field.
    pub proof fn lemma_bits_inverse(self)
        ensures
            OcpTRetry::spec_from_bits(self.spec_bits()) == self,
            self.spec_bits() <= 3,
    {
    }
}

impl Default for OcpTRetry {
    /// Power-on value.
    fn default() -> (r: Self)
        ensures
            r == OcpTRetry::Ms4,
    {
        OcpTRetry::Ms4
    }
}

/// Register lock state set in [`ControlRegister3`].  Only the two
/// documented encodings exist; any other field value decodes to
/// `Unlocked`.
#[derive(Debug, Clone, Copy, PartialEq, Eq, Structural)]
pub enum Lock {
    Unlocked,
    Locked,
}

impl Lock {
    /// Field encoding of this variant.
    pub open spec fn spec_bits(self) -> u8 {
        match self {
            Lock::Unlocked => 0b100,
            Lock::Locked => 0b011,
        }
    }

    /// Field encoding of this variant.
    pub fn to_bits(self) -> (r: u8)
        ensures
            r == self.spec_bits(),
    {
        match self {
            Lock::Unlocked => 0b100,
            Lock::Locked => 0b011,
        }
    }

    /// Variant of a field value.
    pub open spec fn spec_from_bits(bits: u8) -> Lock {
        if bits == 0b011 {
            Lock::Locked
        } else {
            Lock::Unlocked
        }
    }

    /// Variant of a field value.
    pub fn from_bits(bits: u8) -> (r: Lock)
        ensures
            r == Lock::spec_from_bits(bits),
    {
        if bits == 0b011 {
            Lock::Locked
        } else {
            Lock::Unlocked
        }
    }

    /// Encoding then decoding a variant gives it back, and every
    /// encoding fits the 3-bit field.
    pub proof fn lemma_bits_inverse(self)
        ensures
            Lock::spec_from_bits(self.spec_bits()) == self,
            self.spec_bits() <= 7,
    {
    }
}

impl Default for Lock {
    /// Power-on value.
    fn default() -> (r: Self)
        ensures
            r == Lock::Unlocked,
    {
        Lock::Unlocked
    }
}

/// Current-regulation (ITRIP) enable set in [`ControlRegister4`].
#[derive(Debug, Clone, Copy, PartialEq, Eq, Structural)]
pub enum ITrip {
    Enabled,
    Out1Disabled,
    Out2Disabled,
    Disabled,
}

impl ITrip {
    /// Field encoding of this variant.
    pub open spec fn spec_bits(self) -> u8 {
        match self {
            ITrip::Enabled => 0b00,
            ITrip::Out1Disabled => 0b01,
            ITrip::Out2Disabled => 0b10,
            ITrip::Disabled => 0b11,
        }
    }

    /// Field encoding of this variant.
    pub fn to_bits(self) -> (r: u8)
        ensures
            r == self.spec_bits(),
    {
        match self {
            ITrip::Enabled => 0b00,
            ITrip::Out1Disabled => 0b01,
            ITrip::Out2Disabled => 0b10,
            ITrip::Disabled => 0b11,
        }
    }

    /// Variant of a field value.
    pub open spec fn spec_from_bits(bits: u8) -> ITrip {
        if bits == 0b00 {
            ITrip::Enabled
        } else if bits == 0b01 {
            ITrip::Out1Disabled
        } else if bits == 0b10 {
            ITrip::Out2Disabled
        } else {
            ITrip::Disabled
        }
    }

    /// Variant of a field value.
    pub fn from_bits(bits: u8) -> (r: ITrip)
        ensures
            r == ITrip::spec_from_bits(bits),
    {
        if bits == 0b00 {
            ITrip::Enabled
        } else if bits == 0b01 {
            ITrip::Out1Disabled
        } else if bits == 0b10 {
            ITrip::Out2Disabled
        } else {
            ITrip::Disabled
        }
    }

    /// Encoding then decoding a variant gives it back, and every
    /// encoding fits the 2-bit field.
    pub proof fn lemma_bits_inverse(self)
        ensures
            ITrip::spec_from_bits(self.spec_bits()) == self,
            self.spec_bits() <= 3,
    {
    }
}

impl Default for ITrip {
    /// Power-on value.
    fn default() -> (r: Self)
        ensures
            r == ITrip::Enabled,
    {
        ITrip::Enabled
    }
}

/// Current-regulation trip level set in [`ControlRegister4`].
#[derive(Debug, Clone, Copy, PartialEq, Eq, Structural)]
pub enum ITripLvl {
    Ampere4,
    Ampere5_4,
    Ampere6_5,
    Ampere7,
}

impl ITripLvl {
    /// Field encoding of this variant.
    pub open spec fn spec_bits(self) -> u8 {
        match self {
            ITripLvl::Ampere4 => 0b00,
            ITripLvl::Ampere5_4 => 0b01,
            ITripLvl::Ampere6_5 => 0b10,
            ITripLvl::Ampere7 => 0b11,
        }
    }

    /// Field encoding of this variant.
    pub fn to_bits(self) -> (r: u8)
        ensures
            r == self.spec_bits(),
    {
        match self {
            ITripLvl::Ampere4 => 0b00,
            ITripLvl::Ampere5_4 => 0b01,
            ITripLvl::Ampere6_5 => 0b10,
            ITripLvl::Ampere7 => 0b11,
        }
    }

    /// Variant of a field value.
    pub open spec fn spec_from_bits(bits: u8) -> ITripLvl {
        if bits == 0b00 {
            ITripLvl::Ampere4
        } else if bits == 0b01 {
            ITripLvl::Ampere5_4
        } else if bits == 0b10 {
            ITripLvl::Ampere6_5
        } else {
            ITripLvl::Ampere7
        }
    }

    /// Variant of a field value.
    pub fn from_bits(bits: u8) -> (r: ITripLvl)
        ensures
            r == ITripLvl::spec_from_bits(bits),
    {
        if bits == 0b00 {
            ITripLvl::Ampere4
        } else if bits == 0b01 {
            ITripLvl::Ampere5_4
        } else if bits == 0b10 {
            ITripLvl::Ampere6_5
        } else {
            ITripLvl::Ampere7
        }
    }

    /// Encoding then decoding a variant gives it back, and every
    /// encoding fits the 2-bit field.
    pub proof fn lemma_bits_inverse(self)
        ensures
            ITripLvl::spec_from_bits(self.spec_bits()) == self,
            self.spec_bits() <= 3,
    {
    }
}

impl Default for ITripLvl {
    /// Power-on value.
    fn default() -> (r: Self)
        ensures
            r == ITripLvl::Ampere6_5,
    {
        ITripLvl::Ampere6_5
    }
}

/// Control register 2 (address 0x03, read/write): overcurrent,
/// overtemperature and current-regulation condition handling.
#[derive(Debug, Clone, Copy, PartialEq, Eq, Structural)]
pub struct ControlRegister2(pub u8);

impl Register for ControlRegister2 {
    open spec fn spec_addr() -> u8 {
        0x03
    }

    open spec fn spec_byte(&self) -> u8 {
        self.0
    }

    open spec fn spec_from_byte(byte: u8) -> Self {
        ControlRegister2(byte)
    }

    proof fn lemma_round_trip(byte: u8) {
    }

    fn addr() -> u8 {
        0x03
    }

    fn from_byte(byte: u8) -> Self {
        Self(byte)
    }

    fn to_byte(&self) -> u8 {
        self.0
    }
}

impl Default for ControlRegister2 {
    /// Power-on value `0b00001100`: overcurrent causes a latched fault,
    /// 4 ms overcurrent retry time, every other bit clear.
    fn default() -> (r: Self)
        ensures
            r == ControlRegister2(0b00001100u8),
            r.spec_ocp_mode() == OcpMode::LatchedFault,
            r.spec_ocp_t_retry() == OcpTRetry::Ms4,
            !r.spec_dis_cpuv(),
            !r.spec_otw_rep(),
            !r.spec_tsd_mode(),
            !r.spec_itrip_rep(),
    {
        proof {
            assert(0b00001100u8 & 0b11 == 0b00 && (0b00001100u8 >> 2) & 0b11 == 0b11
                && 0b00001100u8 & 0x10 == 0 && 0b00001100u8 & 0x20 == 0
                && 0b00001100u8 & 0x40 == 0 && 0b00001100u8 & 0x80 == 0) by (bit_vector);
        }
        Self(0b00001100)
    }
}

impl ControlRegister2 {
    /// Overcurrent condition handling mode (bits 1..0).
    pub open spec fn spec_ocp_mode(&self) -> OcpMode {
        OcpMode::spec_from_bits(self.0 & 0b11)
    }

    /// Overcurrent condition handling mode (bits 1..0).
    pub fn ocp_mode(&self) -> (r: OcpMode)
        ensures
            r == self.spec_ocp_mode(),
    {
        OcpMode::from_bits(self.0 & 0b11)
    }

    /// Set the overcurrent condition handling mode.
    pub fn set_ocp_mode(&mut self, mode: OcpMode)
        ensures
            final(self).0 == (old(self).0 & 0xfc) | mode.spec_bits(),
            final(self).spec_ocp_mode() == mode,
    {
        let bits: u8 = mode.to_bits();
        self.0 = (self.0 & 0xfc) | bits;
        proof {
            mode.lemma_bits_inverse();
            let o: u8 = old(self).0;
            let b: u8 = mode.spec_bits();
            assert(((o & 0xfc) | b) & 0b11 == b) by (bit_vector)
                requires
                    b <= 3,
            ;
        }
    }

    /// Overcurrent retry time (bits 3..2).
    pub open spec fn spec_ocp_t_retry(&self) -> OcpTRetry {
        OcpTRetry::spec_from_bits((self.0 >> 2) & 0b11)
    }

    /// Overcurrent retry time (bits 3..2).
    pub fn ocp_t_retry(&self) -> (r: OcpTRetry)
        ensures
            r == self.spec_ocp_t_retry(),
    {
        OcpTRetry::from_bits((self.0 >> 2) & 0b11)
    }

    /// Set the overcurrent retry time.
    pub fn set_ocp_t_retry(&mut self, retry: OcpTRetry)
        ensures
            final(self).0 == (old(self).0 & 0xf3) | (retry.spec_bits() << 2),
            final(self).spec_ocp_t_retry() == retry,
    {
        let bits: u8 = retry.to_bits();
        self.0 = (self.0 & 0xf3) | (bits << 2);
        proof {
            retry.lemma_bits_inverse();
            let o: u8 = old(self).0;
            let b: u8 = retry.spec_bits();
            assert((((o & 0xf3) | (b << 2)) >> 2) & 0b11 == b) by (bit_vector)
                requires
                    b <= 3,
            ;
        }
    }

    /// Whether the charge-pump undervoltage fault is disabled (bit 4).
    pub open spec fn spec_dis_cpuv(&self) -> bool {
        self.0 & 0x10 != 0
    }

    /// Whether the charge-pump undervoltage fault is disabled (bit 4).
    pub fn dis_cpuv(&self) -> (r: bool)
        ensures
            r == self.spec_dis_cpuv(),
    {
        self.0 & 0x10 != 0
    }

    /// Disable the charge-pump undervoltage fault.
    pub fn set_dis_cpuv(&mut self, v: bool)
        ensures
            final(self).0 == (if v {
                old(self).0 | 0x10
            } else {
                old(self).0 & 0xef
            }),
            final(self).spec_dis_cpuv() == v,
    {
        if v {
            self.0 = self.0 | 0x10;
        } else {
            self.0 = self.0 & 0xef;
        }
        proof {
            let o: u8 = old(self).0;
            assert((o | 0x10) & 0x10 != 0 && (o & 0xef) & 0x10 == 0) by (bit_vector);
        }
    }

    /// Overtemperature warning condition handling (bit 5): when set,
    /// OTW is reported on nFAULT and the FAULT bit.
    pub open spec fn spec_otw_rep(&self) -> bool {
        self.0 & 0x20 != 0
    }

    /// Overtemperature warning condition handling (bit 5): when set,
    /// OTW is reported on nFAULT and the FAULT bit.
    pub fn otw_rep(&self) -> (r: bool)
        ensures
            r == self.spec_otw_rep(),
    {
        self.0 & 0x20 != 0
    }

    /// Set overtemperature warning reporting.
    pub fn set_otw_rep(&mut self, v: bool)
        ensures
            final(self).0 == (if v {
                old(self).0 | 0x20
            } else {
                old(self).0 & 0xdf
            }),
            final(self).spec_otw_rep() == v,
    {
        if v {
            self.0 = self.0 | 0x20;
        } else {
            self.0 = self.0 & 0xdf;
        }
        proof {
            let o: u8 = old(self).0;
            assert((o | 0x20) & 0x20 != 0 && (o & 0xdf) & 0x20 == 0) by (bit_vector);
        }
    }

    /// Overtemperature condition handling mode (bit 6): clear for a
    /// latched fault, set for automatic recovery.
    pub open spec fn spec_tsd_mode(&self) -> bool {
        self.0 & 0x40 != 0
    }

    /// Overtemperature condition handling mode (bit 6): clear for a
    /// latched fault, set for automatic recovery.
    pub fn tsd_mode(&self) -> (r: bool)
        ensures
            r == self.spec_tsd_mode(),
    {
        self.0 & 0x40 != 0
    }

    /// Set the overtemperature condition handling mode.
    pub fn set_tsd_mode(&mut self, v: bool)
        ensures
            final(self).0 == (if v {
                old(self).0 | 0x40
            } else {
                old(self).0 & 0xbf
            }),
            final(self).spec_tsd_mode() == v,
    {
        if v {
            self.0 = self.0 | 0x40;
        } else {
            self.0 = self.0 & 0xbf;
        }
        proof {
            let o: u8 = old(self).0;
            assert((o | 0x40) & 0x40 != 0 && (o & 0xbf) & 0x40 == 0) by (bit_vector);
        }
    }

    /// ITRIP condition handling (bit 7): when set, ITRIP is reported on
    /// nFAULT and the FAULT bit.
    pub open spec fn spec_itrip_rep(&self) -> bool {
        self.0 & 0x80 != 0
    }

    /// ITRIP condition handling (bit 7): when set, ITRIP is reported on
    /// nFAULT and the FAULT bit.
    pub fn itrip_rep(&self) -> (r: bool)
        ensures
            r == self.spec_itrip_rep(),
    {
        self.0 & 0x80 != 0
    }

    /// Set ITRIP condition reporting.
    pub fn set_itrip_rep(&mut self, v: bool)
        ensures
            final(self).0 == (if v {
                old(self).0 | 0x80
            } else {
                old(self).0 & 0x7f
            }),
            final(self).spec_itrip_rep() == v,
    {
        if v {
            self.0 = self.0 | 0x80;
        } else {
            self.0 = self.0 & 0x7f;
        }
        proof {
            let o: u8 = old(self).0;
            assert((o | 0x80) & 0x80 != 0 && (o & 0x7f) & 0x80 == 0) by (bit_vector);
        }
    }
}

/// Control register 3 (address 0x04, read/write): SPI-driven output
/// control, per-half-bridge disable, register lock, fault clearing.
#[derive(Debug, Clone, Copy, PartialEq, Eq, Structural)]
pub struct ControlRegister3(pub u8);

impl Register for ControlRegister3 {
    open spec fn spec_addr() -> u8 {
        0x04
    }

    open spec fn spec_byte(&self) -> u8 {
        self.0
    }

    open spec fn spec_from_byte(byte: u8) -> Self {
        ControlRegister3(byte)
    }

    proof fn lemma_round_trip(byte: u8) {
    }

    fn addr() -> u8 {
        0x04
    }

    fn from_byte(byte: u8) -> Self {
        Self(byte)
    }

    fn to_byte(&self) -> u8 {
        self.0
    }
}

impl Default for ControlRegister3 {
    /// Power-on value `0b01000000`: registers unlocked, every other bit
    /// clear.
    fn default() -> (r: Self)
        ensures
            r == ControlRegister3(0b01000000u8),
            r.spec_lock() == Lock::Unlocked,
            !r.spec_ph_in2(),
            !r.spec_en_in1(),
            !r.spec_out2_dis(),
            !r.spec_out1_dis(),
            !r.spec_clr_flt(),
    {
        proof {
            assert((0b01000000u8 >> 4) & 0b111 == 0b100 && 0b01000000u8 & 0x01 == 0
                && 0b01000000u8 & 0x02 == 0 && 0b01000000u8 & 0x04 == 0
                && 0b01000000u8 & 0x08 == 0 && 0b01000000u8 & 0x80 == 0) by (bit_vector);
        }
        Self(0b01000000)
    }
}

impl ControlRegister3 {
    /// PH/IN2 bit (bit 0) to control the outputs through SPI (when
    /// SPI_IN is set in [`ControlRegister1`]).
    pub open spec fn spec_ph_in2(&self) -> bool {
        self.0 & 0x01 != 0
    }

    /// PH/IN2 bit (bit 0) to control the outputs through SPI (when
    /// SPI_IN is set in [`ControlRegister1`]).
    pub fn ph_in2(&self) -> (r: bool)
        ensures
            r == self.spec_ph_in2(),
    {
        self.0 & 0x01 != 0
    }

    /// Set the PH/IN2 bit.
    pub fn set_ph_in2(&mut self, v: bool)
        ensures
            final(self).0 == (if v {
                old(self).0 | 0x01
            } else {
                old(self).0 & 0xfe
            }),
            final(self).spec_ph_in2() == v,
    {
        if v {
            self.0 = self.0 | 0x01;
        } else {
            self.0 = self.0 & 0xfe;
        }
        proof {
            let o: u8 = old(self).0;
            assert((o | 0x01) & 0x01 != 0 && (o & 0xfe) & 0x01 == 0) by (bit_vector);
        }
    }

    /// EN/IN1 bit (bit 1) to control the outputs through SPI (when
    /// SPI_IN is set in [`ControlRegister1`]).
    pub open spec fn spec_en_in1(&self) -> bool {
        self.0 & 0x02 != 0
    }

    /// EN/IN1 bit (bit 1) to control the outputs through SPI (when
    /// SPI_IN is set in [`ControlRegister1`]).
    pub fn en_in1(&self) -> (r: bool)
        ensures
            r == self.spec_en_in1(),
    {
        self.0 & 0x02 != 0
    }

    /// Set the EN/IN1 bit.
    pub fn set_en_in1(&mut self, v: bool)
        ensures
            final(self).0 == (if v {
                old(self).0 | 0x02
            } else {
                old(self).0 & 0xfd
            }),
            final(self).spec_en_in1() == v,
    {
        if v {
            self.0 = self.0 | 0x02;
        } else {
            self.0 = self.0 & 0xfd;
        }
        proof {
            let o: u8 = old(self).0;
            assert((o | 0x02) & 0x02 != 0 && (o & 0xfd) & 0x02 == 0) by (bit_vector);
        }
    }

    /// Half bridge 2 disable (bit 2), effective only in the independent
    /// PWM mode: clear for enabled, set for disabled (Hi-Z).
    pub open spec fn spec_out2_dis(&self) -> bool {
        self.0 & 0x04 != 0
    }

    /// Half bridge 2 disable (bit 2), effective only in the independent
    /// PWM mode: clear for enabled, set for disabled (Hi-Z).
    pub fn out2_dis(&self) -> (r: bool)
        ensures
            r == self.spec_out2_dis(),
    {
        self.0 & 0x04 != 0
    }

    /// Set the half bridge 2 disable bit.
    pub fn set_out2_dis(&mut self, v: bool)
        ensures
            final(self).0 == (if v {
                old(self).0 | 0x04
            } else {
                old(self).0 & 0xfb
            }),
            final(self).spec_out2_dis() == v,
    {
        if v {
            self.0 = self.0 | 0x04;
        } else {
            self.0 = self.0 & 0xfb;
        }
        proof {
            let o: u8 = old(self).0;
            assert((o | 0x04) & 0x04 != 0 && (o & 0xfb) & 0x04 == 0) by (bit_vector);
        }
    }

    /// Half bridge 1 disable (bit 3), effective only in the independent
    /// PWM mode: clear for enabled, set for disabled (Hi-Z).
    pub open spec fn spec_out1_dis(&self) -> bool {
        self.0 & 0x08 != 0
    }

    /// Half bridge 1 disable (bit 3), effective only in the independent
    /// PWM mode: clear for enabled, set for disabled (Hi-Z).
    pub fn out1_dis(&self) -> (r: bool)
        ensures
            r == self.spec_out1_dis(),
    {
        self.0 & 0x08 != 0
    }

    /// Set the half bridge 1 disable bit.
    pub fn set_out1_dis(&mut self, v: bool)
        ensures
            final(self).0 == (if v {
                old(self).0 | 0x08
            } else {
                old(self).0 & 0xf7
            }),
            final(self).spec_out1_dis() == v,
    {
        if v {
            self.0 = self.0 | 0x08;
        } else {
            self.0 = self.0 & 0xf7;
        }
        proof {
            let o: u8 = old(self).0;
            assert((o | 0x08) & 0x08 != 0 && (o & 0xf7) & 0x08 == 0) by (bit_vector);
        }
    }

    /// Register lock state (bits 6..4): writing [`Lock::Locked`] locks
    /// all control register settings except these bits and the
    /// clear-fault bit; writing [`Lock::Unlocked`] unlocks them.
    pub open spec fn spec_lock(&self) -> Lock {
        Lock::spec_from_bits((self.0 >> 4) & 0b111)
    }

    /// Register lock state (bits 6..4).
    pub fn lock(&self) -> (r: Lock)
        ensures
            r == self.spec_lock(),
    {
        Lock::from_bits((self.0 >> 4) & 0b111)
    }

    /// Set the register lock state.
    pub fn set_lock(&mut self, lock: Lock)
        ensures
            final(self).0 == (old(self).0 & 0x8f) | (lock.spec_bits() << 4),
            final(self).spec_lock() == lock,
    {
        let bits: u8 = lock.to_bits();
        self.0 = (self.0 & 0x8f) | (bits << 4);
        proof {
            lock.lemma_bits_inverse();
            let o: u8 = old(self).0;
            let b: u8 = lock.spec_bits();
            assert((((o & 0x8f) | (b << 4)) >> 4) & 0b111 == b) by (bit_vector)
                requires
                    b <= 7,
            ;
        }
    }

    /// Clear-fault bit (bit 7): write 1 to clear the fault bits; the IC
    /// automatically resets it after a write.
    pub open spec fn spec_clr_flt(&self) -> bool {
        self.0 & 0x80 != 0
    }

    /// Clear-fault bit (bit 7): write 1 to clear the fault bits; the IC
    /// automatically resets it after a write.
    pub fn clr_flt(&self) -> (r: bool)
        ensures
            r == self.spec_clr_flt(),
    {
        self.0 & 0x80 != 0
    }

    /// Set the clear-fault bit.
    pub fn set_clr_flt(&mut self, v: bool)
        ensures
            final(self).0 == (if v {
                old(self).0 | 0x80
            } else {
                old(self).0 & 0x7f
            }),
            final(self).spec_clr_flt() == v,
    {
        if v {
            self.0 = self.0 | 0x80;
        } else {
            self.0 = self.0 & 0x7f;
        }
        proof {
            let o: u8 = old(self).0;
            assert((o | 0x80) & 0x80 != 0 && (o & 0x7f) & 0x80 == 0) by (bit_vector);
        }
    }

    /// The value a fault clear writes back: this register with the
    /// clear-fault bit set and every other bit unchanged.  The IC
    /// resets the bit automatically once the write completes.
    pub fn with_clear_fault(self) -> (r: Self)
        ensures
            r.0 == self.0 | 0x80,
            r.spec_clr_flt(),
            r.spec_lock() == self.spec_lock(),
    {
        let mut r = self;
        r.set_clr_flt(true);
        proof {
            let o: u8 = self.0;
            assert(((o | 0x80) >> 4) & 0b111 == (o >> 4) & 0b111) by (bit_vector);
        }
        r
    }
}

/// Control register 4 (address 0x05, read/write): current regulation
/// and open-load diagnostics; bit 7 reserved.
#[derive(Debug, Clone, Copy, PartialEq, Eq, Structural)]
pub struct ControlRegister4(pub u8);

impl Register for ControlRegister4 {
    open spec fn spec_addr() -> u8 {
        0x05
    }

    open spec fn spec_byte(&self) -> u8 {
        self.0
    }

    open spec fn spec_from_byte(byte: u8) -> Self {
        ControlRegister4(byte)
    }

    proof fn lemma_round_trip(byte: u8) {
    }

    fn addr() -> u8 {
        0x05
    }

    fn from_byte(byte: u8) -> Self {
        Self(byte)
    }

    fn to_byte(&self) -> u8 {
        self.0
    }
}

impl Default for ControlRegister4 {
    /// Power-on value `0b00001000`: current regulation enabled with a
    /// 6.5 A trip level, every other bit clear.
    fn default() -> (r: Self)
        ensures
            r == ControlRegister4(0b00001000u8),
            r.spec_i_trip() == ITrip::Enabled,
            r.spec_i_trip_lvl() == ITripLvl::Ampere6_5,
            !r.spec_en_ola(),
            !r.spec_olp_dly(),
            !r.spec_en_olp(),
    {
        proof {
            assert(0b00001000u8 & 0b11 == 0b00 && (0b00001000u8 >> 2) & 0b11 == 0b10
                && 0b00001000u8 & 0x10 == 0 && 0b00001000u8 & 0x20 == 0
                && 0b00001000u8 & 0x40 == 0) by (bit_vector);
        }
        Self(0b00001000)
    }
}

impl ControlRegister4 {
    /// Current-regulation enable [`ITrip`] (bits 1..0).
    pub open spec fn spec_i_trip(&self) -> ITrip {
        ITrip::spec_from_bits(self.0 & 0b11)
    }

    /// Current-regulation enable [`ITrip`] (bits 1..0).
    pub fn i_trip(&self) -> (r: ITrip)
        ensures
            r == self.spec_i_trip(),
    {
        ITrip::from_bits(self.0 & 0b11)
    }

    /// Set the current-regulation enable.
    pub fn set_i_trip(&mut self, itrip: ITrip)
        ensures
            final(self).0 == (old(self).0 & 0xfc) | itrip.spec_bits(),
            final(self).spec_i_trip() == itrip,
    {
        let bits: u8 = itrip.to_bits();
        self.0 = (self.0 & 0xfc) | bits;
        proof {
            itrip.lemma_bits_inverse();
            let o: u8 = old(self).0;
            let b: u8 = itrip.spec_bits();
            assert(((o & 0xfc) | b) & 0b11 == b) by (bit_vector)
                requires
                    b <= 3,
            ;
        }
    }

    /// Current-regulation trip level [`ITripLvl`] (bits 3..2).
    pub open spec fn spec_i_trip_lvl(&self) -> ITripLvl {
        ITripLvl::spec_from_bits((self.0 >> 2) & 0b11)
    }

    /// Current-regulation trip level [`ITripLvl`] (bits 3..2).
    pub fn i_trip_lvl(&self) -> (r: ITripLvl)
        ensures
            r == self.spec_i_trip_lvl(),
    {
        ITripLvl::from_bits((self.0 >> 2) & 0b11)
    }

    /// Set the current-regulation trip level.
    pub fn set_i_trip_lvl(&mut self, lvl: ITripLvl)
        ensures
            final(self).0 == (old(self).0 & 0xf3) | (lvl.spec_bits() << 2),
            final(self).spec_i_trip_lvl() == lvl,
    {
        let bits: u8 = lvl.to_bits();
        self.0 = (self.0 & 0xf3) | (bits << 2);
        proof {
            lvl.lemma_bits_inverse();
            let o: u8 = old(self).0;
            let b: u8 = lvl.spec_bits();
            assert((((o & 0xf3) | (b << 2)) >> 2) & 0b11 == b) by (bit_vector)
                requires
                    b <= 3,
            ;
        }
    }

    /// Open-load diagnostics enable in active mode (bit 4).
    pub open spec fn spec_en_ola(&self) -> bool {
        self.0 & 0x10 != 0
    }

    /// Open-load diagnostics enable in active mode (bit 4).
    pub fn en_ola(&self) -> (r: bool)
        ensures
            r == self.spec_en_ola(),
    {
        self.0 & 0x10 != 0
    }

    /// Enable open-load diagnostics in active mode.
    pub fn set_en_ola(&mut self, v: bool)
        ensures
            final(self).0 == (if v {
                old(self).0 | 0x10
            } else {
                old(self).0 & 0xef
            }),
            final(self).spec_en_ola() == v,
    {
        if v {
            self.0 = self.0 | 0x10;
        } else {
            self.0 = self.0 & 0xef;
        }
        proof {
            let o: u8 = old(self).0;
            assert((o | 0x10) & 0x10 != 0 && (o & 0xef) & 0x10 == 0) by (bit_vector);
        }
    }

    /// Open-load diagnostics delay (bit 5): clear for 300 µs, set for
    /// 1.2 ms.
    pub open spec fn spec_olp_dly(&self) -> bool {
        self.0 & 0x20 != 0
    }

    /// Open-load diagnostics delay (bit 5): clear for 300 µs, set for
    /// 1.2 ms.
    pub fn olp_dly(&self) -> (r: bool)
        ensures
            r == self.spec_olp_dly(),
    {
        self.0 & 0x20 != 0
    }

    /// Set the open-load diagnostics delay.
    pub fn set_old_dly(&mut self, v: bool)
        ensures
            final(self).0 == (if v {
                old(self).0 | 0x20
            } else {
                old(self).0 & 0xdf
            }),
            final(self).spec_olp_dly() == v,
    {
        if v {
            self.0 = self.0 | 0x20;
        } else {
            self.0 = self.0 & 0xdf;
        }
        proof {
            let o: u8 = old(self).0;
            assert((o | 0x20) & 0x20 != 0 && (o & 0xdf) & 0x20 == 0) by (bit_vector);
        }
    }

    /// Open-load diagnostic in standby mode (bit 6): write 1 to run it;
    /// the bit returns to 0 when the test completes.
    pub open spec fn spec_en_olp(&self) -> bool {
        self.0 & 0x40 != 0
    }

    /// Open-load diagnostic in standby mode (bit 6): write 1 to run it;
    /// the bit returns to 0 when the test completes.
    pub fn en_olp(&self) -> (r: bool)
        ensures
            r == self.spec_en_olp(),
    {
        self.0 & 0x40 != 0
    }

    /// Run the open-load diagnostic in standby mode.
    pub fn set_en_olp(&mut self, v: bool)
        ensures
            final(self).0 == (if v {
                old(self).0 | 0x40
            } else {
                old(self).0 & 0xbf
            }),
            final(self).spec_en_olp() == v,
    {
        if v {
            self.0 = self.0 | 0x40;
        } else {
            self.0 = self.0 & 0xbf;
        }
        proof {
            let o: u8 = old(self).0;
            assert((o | 0x40) & 0x40 != 0 && (o & 0xbf) & 0x40 == 0) by (bit_vector);
        }
    }
}

} // verus!
