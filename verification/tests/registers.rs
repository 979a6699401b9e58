use drv8873::registers::{
    get_status, CommandByte, ControlRegister1, ControlRegister2, ControlRegister3,
    ControlRegister4, DiagnosticStatus, FaultStatus, ITrip, ITripLvl, Lock, Mode, OcpMode,
    OcpTRetry, Register, RiseTime, Toff,
};

#[test]
fn fault_status_register() {
    let fsr = FaultStatus(0b01010101);
    assert!(fsr.ol());
    assert!(!fsr.tsd());
    assert!(fsr.ocp());
}

#[test]
fn control_register1() {
    let mut cr1 = ControlRegister1(0u8);
    assert_eq!(cr1.mode(), Mode::PhaseEnable);
    assert_eq!(cr1.sr(), RiseTime::VoltPerUs53_2);

    cr1.set_sr(RiseTime::VoltPerUs7_9);
    cr1.set_mode(Mode::PWM);

    assert_eq!(cr1.sr(), RiseTime::VoltPerUs7_9);
    assert_eq!(cr1.mode(), Mode::PWM);
}

#[test]
fn control_register2() {}

#[test]
fn command_byte_concrete() {
    assert_eq!(CommandByte::write(0x02).0, 0b00000100);
    assert_eq!(CommandByte::write(0x00).0, 0b00000000);
    assert_eq!(CommandByte::read(0x00).0, 0b01000000);
    assert_eq!(CommandByte::read(0x01).0, 0b01000010);
    assert_eq!(CommandByte::read(0x05).0, 0b01001010);
}

#[test]
fn command_byte_all_addresses() {
    for addr in 0u8..=0x1f {
        let w = CommandByte::write(addr);
        let r = CommandByte::read(addr);
        // bit 6 is the read flag
        assert_eq!(w.0 & 0x40, 0);
        assert_eq!(r.0 & 0x40, 0x40);
        // bits 5..1 hold the address masked to 5 bits
        assert_eq!((w.0 >> 1) & 0x1f, addr & 0x1f);
        assert_eq!((r.0 >> 1) & 0x1f, addr & 0x1f);
        // bits 0 and 7 stay clear
        assert_eq!(w.0 & 0x81, 0);
        assert_eq!(r.0 & 0x81, 0);
    }
    // addresses above 5 bits are masked, not rejected
    assert_eq!(CommandByte::write(0x22).0, CommandByte::write(0x02).0);
}

#[test]
fn status_decoding() {
    assert_eq!(get_status(0b11000000), None);
    assert_eq!(get_status(0b11000101), Some(FaultStatus(0b0000101)));
    // a status byte without the OK marker is a fault even with no low bits set
    assert_eq!(get_status(0b01000000), Some(FaultStatus(0b0000000)));
    assert_eq!(get_status(0b11111111), Some(FaultStatus(0b0111111)));
}

#[test]
fn register_round_trip_every_byte() {
    for b in 0u8..=255 {
        assert_eq!(FaultStatus::from_byte(b).to_byte(), b);
        assert_eq!(DiagnosticStatus::from_byte(b).to_byte(), b);
        assert_eq!(ControlRegister1::from_byte(b).to_byte(), b);
        assert_eq!(ControlRegister2::from_byte(b).to_byte(), b);
        assert_eq!(ControlRegister3::from_byte(b).to_byte(), b);
        assert_eq!(ControlRegister4::from_byte(b).to_byte(), b);
    }
}

#[test]
fn register_addresses() {
    assert_eq!(FaultStatus::addr(), 0x00);
    assert_eq!(DiagnosticStatus::addr(), 0x01);
    assert_eq!(ControlRegister1::addr(), 0x02);
    assert_eq!(ControlRegister2::addr(), 0x03);
    assert_eq!(ControlRegister3::addr(), 0x04);
    assert_eq!(ControlRegister4::addr(), 0x05);
}

#[test]
fn control_register1_default() {
    let cr1 = ControlRegister1::default();
    assert_eq!(cr1.0, 0b01010001);
    assert_eq!(cr1.mode(), Mode::PWM);
    assert_eq!(cr1.sr(), RiseTime::VoltPerUs10_8);
    assert_eq!(cr1.toff(), Toff::Us40);
    assert!(!cr1.spi_in());
}

#[test]
fn control_register2_default() {
    let cr2 = ControlRegister2::default();
    assert_eq!(cr2.0, 0b00001100);
    assert_eq!(cr2.ocp_mode(), OcpMode::LatchedFault);
    assert_eq!(cr2.ocp_t_retry(), OcpTRetry::Ms4);
    assert!(!cr2.dis_cpuv());
    assert!(!cr2.otw_rep());
    assert!(!cr2.tsd_mode());
    assert!(!cr2.itrip_rep());
}

#[test]
fn control_register3_default() {
    let cr3 = ControlRegister3::default();
    assert_eq!(cr3.0, 0b01000000);
    assert_eq!(cr3.lock(), Lock::Unlocked);
    assert!(!cr3.clr_flt());
}

#[test]
fn control_register4_default() {
    let cr4 = ControlRegister4::default();
    assert_eq!(cr4.0, 0b00001000);
    assert_eq!(cr4.i_trip(), ITrip::Enabled);
    assert_eq!(cr4.i_trip_lvl(), ITripLvl::Ampere6_5);
    assert!(!cr4.en_ola());
    assert!(!cr4.olp_dly());
    assert!(!cr4.en_olp());
}

#[test]
fn fault_status_flags() {
    let fsr = FaultStatus(0b01101010);
    assert!(!fsr.ol());
    assert!(fsr.tsd());
    assert!(!fsr.ocp());
    assert!(fsr.cpuv());
    assert!(!fsr.uvlo());
    assert!(fsr.otw());
    assert!(fsr.fault());
}

#[test]
fn diagnostic_status_flags() {
    let ds = DiagnosticStatus(0b10000000);
    assert!(ds.ol1());
    assert!(!ds.ol2());
    let ds = DiagnosticStatus(0b00011111);
    assert!(ds.ocp_l2());
    assert!(ds.ocp_h2());
    assert!(ds.ocp_l1());
    assert!(ds.ocp_h1());
    assert!(ds.itrip2());
    assert!(!ds.itrip1());
}

#[test]
fn control_register1_fields() {
    let mut cr1 = ControlRegister1(0u8);
    cr1.set_toff(Toff::Us80);
    cr1.set_spi_in(true);
    assert_eq!(cr1.toff(), Toff::Us80);
    assert!(cr1.spi_in());
    assert_eq!(cr1.0, 0b11100000);
    cr1.set_spi_in(false);
    assert!(!cr1.spi_in());
    assert_eq!(cr1.toff(), Toff::Us80);
}

#[test]
fn control_register2_fields() {
    let mut cr2 = ControlRegister2(0u8);
    cr2.set_ocp_mode(OcpMode::AutomaticRetry);
    cr2.set_ocp_t_retry(OcpTRetry::Ms1);
    cr2.set_dis_cpuv(true);
    cr2.set_otw_rep(true);
    cr2.set_tsd_mode(true);
    cr2.set_itrip_rep(true);
    assert_eq!(cr2.ocp_mode(), OcpMode::AutomaticRetry);
    assert_eq!(cr2.ocp_t_retry(), OcpTRetry::Ms1);
    assert!(cr2.dis_cpuv());
    assert!(cr2.otw_rep());
    assert!(cr2.tsd_mode());
    assert!(cr2.itrip_rep());
    assert_eq!(cr2.0, 0b11110101);
}

#[test]
fn control_register3_fields() {
    let mut cr3 = ControlRegister3(0u8);
    cr3.set_ph_in2(true);
    cr3.set_en_in1(true);
    cr3.set_out2_dis(true);
    cr3.set_out1_dis(true);
    cr3.set_lock(Lock::Locked);
    cr3.set_clr_flt(true);
    assert!(cr3.ph_in2());
    assert!(cr3.en_in1());
    assert!(cr3.out2_dis());
    assert!(cr3.out1_dis());
    assert_eq!(cr3.lock(), Lock::Locked);
    assert!(cr3.clr_flt());
    assert_eq!(cr3.0, 0b10111111);
    cr3.set_lock(Lock::Unlocked);
    assert_eq!(cr3.lock(), Lock::Unlocked);
    assert_eq!(cr3.0, 0b11001111);
}

#[test]
fn control_register4_fields() {
    let mut cr4 = ControlRegister4(0u8);
    cr4.set_i_trip(ITrip::Disabled);
    cr4.set_i_trip_lvl(ITripLvl::Ampere7);
    cr4.set_en_ola(true);
    cr4.set_old_dly(true);
    cr4.set_en_olp(true);
    assert_eq!(cr4.i_trip(), ITrip::Disabled);
    assert_eq!(cr4.i_trip_lvl(), ITripLvl::Ampere7);
    assert!(cr4.en_ola());
    assert!(cr4.olp_dly());
    assert!(cr4.en_olp());
    assert_eq!(cr4.0, 0b01111111);
}

#[test]
fn with_clear_fault_sets_only_bit7() {
    let cr3 = ControlRegister3(0b01001010);
    let cleared = cr3.with_clear_fault();
    assert_eq!(cleared.0, 0b11001010);
    assert!(cleared.clr_flt());
    assert_eq!(cleared.lock(), cr3.lock());
}

#[test]
fn reserved_bits_pass_through() {
    // bit 7 of the fault register and of control register 4 are
    // reserved: decoding and encoding keeps them verbatim
    assert_eq!(FaultStatus::from_byte(0b10000000).to_byte(), 0b10000000);
    assert_eq!(ControlRegister4::from_byte(0b10000000).to_byte(), 0b10000000);
}

#[test]
fn field_enum_encodings() {
    assert_eq!(Mode::from_bits(0b00), Mode::PhaseEnable);
    assert_eq!(Mode::from_bits(0b11), Mode::InputDisabled);
    assert_eq!(RiseTime::from_bits(0b111), RiseTime::VoltPerUs2_6);
    assert_eq!(Toff::from_bits(0b10), Toff::Us60);
    assert_eq!(OcpMode::from_bits(0b10), OcpMode::ReportOnly);
    assert_eq!(OcpTRetry::from_bits(0b00), OcpTRetry::Ms0_5);
    assert_eq!(ITrip::from_bits(0b01), ITrip::Out1Disabled);
    assert_eq!(ITripLvl::from_bits(0b00), ITripLvl::Ampere4);
    assert_eq!(Lock::from_bits(0b011), Lock::Locked);
    assert_eq!(Lock::from_bits(0b100), Lock::Unlocked);
    // undocumented lock encodings decode to unlocked
    assert_eq!(Lock::from_bits(0b000), Lock::Unlocked);
    assert_eq!(Lock::from_bits(0b111), Lock::Unlocked);

    assert_eq!(Mode::default(), Mode::PWM);
    assert_eq!(RiseTime::default(), RiseTime::VoltPerUs10_8);
    assert_eq!(Toff::default(), Toff::Us40);
    assert_eq!(OcpMode::default(), OcpMode::LatchedFault);
    assert_eq!(OcpTRetry::default(), OcpTRetry::Ms4);
    assert_eq!(Lock::default(), Lock::Unlocked);
    assert_eq!(ITrip::default(), ITrip::Enabled);
    assert_eq!(ITripLvl::default(), ITripLvl::Ampere6_5);
}

#[test]
fn field_enum_bits_round_trip() {
    for bits in 0u8..=3 {
        assert_eq!(Mode::from_bits(bits).to_bits(), bits);
        assert_eq!(Toff::from_bits(bits).to_bits(), bits);
        assert_eq!(OcpMode::from_bits(bits).to_bits(), bits);
        assert_eq!(OcpTRetry::from_bits(bits).to_bits(), bits);
        assert_eq!(ITrip::from_bits(bits).to_bits(), bits);
        assert_eq!(ITripLvl::from_bits(bits).to_bits(), bits);
    }
    for bits in 0u8..=7 {
        assert_eq!(RiseTime::from_bits(bits).to_bits(), bits);
    }
}
