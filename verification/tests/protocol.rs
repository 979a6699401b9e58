use drv8873::config::DRV8873Config;
use drv8873::protocol::{decode_read_response, read_request, write_request};
use drv8873::registers::{
    ControlRegister1, ControlRegister2, ControlRegister3, ControlRegister4, DiagnosticStatus,
    FaultStatus,
};

#[test]
fn read_request_frames() {
    assert_eq!(read_request::<FaultStatus>(), vec![0b01000000, 0b00000000]);
    assert_eq!(read_request::<DiagnosticStatus>(), vec![0b01000010, 0b00000000]);
    assert_eq!(read_request::<ControlRegister1>(), vec![0b01000100, 0b00000000]);
}

#[test]
fn write_request_frames() {
    let cr1 = ControlRegister1(0xFF);
    assert_eq!(write_request(&cr1), vec![0b00000100, 0xFF]);
    let cr3 = ControlRegister3(0b01000000);
    assert_eq!(write_request(&cr3), vec![0b00001000, 0b01000000]);
}

#[test]
fn fault_read_without_fault() {
    // a fault-register read answered with the OK status marker and an
    // open-load data bit
    let (fs, status) = decode_read_response::<FaultStatus>(0b11000000, 0b00000001);
    assert!(fs.ol());
    assert!(!fs.fault());
    assert_eq!(status, None);
}

#[test]
fn fault_read_with_reported_fault() {
    // the same read answered with a fault-carrying status byte still
    // yields the requested register value, plus the decoded fault
    let (fs, status) = decode_read_response::<FaultStatus>(0b11000101, 0b00000001);
    assert!(fs.ol());
    assert_eq!(status, Some(FaultStatus(0b000101)));
    let reported = status.unwrap();
    assert!(reported.ol());
    assert!(reported.ocp());
    assert!(!reported.tsd());
}

#[test]
fn diagnostic_read_decodes_register() {
    let (ds, status) = decode_read_response::<DiagnosticStatus>(0b11000000, 0b10000000);
    assert!(ds.ol1());
    assert_eq!(status, None);
}

#[test]
fn write_config_frame_order() {
    let cfg = DRV8873Config::default();
    assert_eq!(
        cfg.write_config_frames(),
        vec![
            0b00000100,
            ControlRegister1::default().0,
            0b00000110,
            ControlRegister2::default().0,
            0b00001000,
            ControlRegister3::default().0,
            0b00001010,
            ControlRegister4::default().0,
        ]
    );
}

#[test]
fn write_config_frames_use_register_bytes() {
    let cfg = DRV8873Config {
        cr1: ControlRegister1(0x11),
        cr2: ControlRegister2(0x22),
        cr3: ControlRegister3(0x33),
        cr4: ControlRegister4(0x44),
    };
    assert_eq!(
        cfg.write_config_frames(),
        vec![0b00000100, 0x11, 0b00000110, 0x22, 0b00001000, 0x33, 0b00001010, 0x44]
    );
}

#[test]
fn read_config_frame_order() {
    assert_eq!(
        DRV8873Config::read_config_frames(),
        vec![0b01000100, 0, 0b01000110, 0, 0b01001000, 0, 0b01001010, 0]
    );
}

#[test]
fn config_from_register_bytes() {
    let cfg = DRV8873Config::from_register_bytes(0xAA, 0xBB, 0xCC, 0xDD);
    assert_eq!(cfg.cr1.0, 0xAA);
    assert_eq!(cfg.cr2.0, 0xBB);
    assert_eq!(cfg.cr3.0, 0xCC);
    assert_eq!(cfg.cr4.0, 0xDD);
}

#[test]
fn config_default_registers() {
    let cfg = DRV8873Config::default();
    assert_eq!(cfg.cr1, ControlRegister1::default());
    assert_eq!(cfg.cr2, ControlRegister2::default());
    assert_eq!(cfg.cr3, ControlRegister3::default());
    assert_eq!(cfg.cr4, ControlRegister4::default());
}

#[test]
fn aggregate_status_no_fault() {
    assert_eq!(
        DRV8873Config::aggregate_status(0b11000000, 0b11000000, 0b11000000, 0b11000000),
        None
    );
}

#[test]
fn aggregate_status_first_fault_wins() {
    assert_eq!(
        DRV8873Config::aggregate_status(0b11000000, 0b11000010, 0b11000001, 0b11000000),
        Some(FaultStatus(0b000010))
    );
    assert_eq!(
        DRV8873Config::aggregate_status(0b11000000, 0b11000000, 0b11000000, 0b11100000),
        Some(FaultStatus(0b100000))
    );
}
