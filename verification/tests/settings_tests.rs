use self_writer::app_settings::{
    AppSettings, CalibrationDate, Monitoring, NonStoreSettings, P16Coeffs, PressureMeassureUnits,
    T5Coeffs, WorkRange, WriteConfig,
};
use self_writer::protobuf::change_password::change_password;
use self_writer::protobuf::messages::{BuildDate, ChangePassword, SettingsResponse, WriteSettingsReq};
use self_writer::protobuf::monitoring_over_conditions::reset_monitoring_flags;
use self_writer::protobuf::process_settings::{
    fill_settings, strlenn, update_settings, DeviceConstants, SettingActionError,
};

fn range() -> WorkRange {
    WorkRange { minimum: 0, maximum: 1.0f32.to_bits(), absolute_maximum: 2.0f32.to_bits() }
}

fn settings() -> (AppSettings, NonStoreSettings) {
    let s = AppSettings {
        Serial: 123,
        PMesureTime_ms: 10,
        T1MesureTime_ms: 20,
        T2MesureTime_ms: 30,
        Fref: 48000000,
        P_enabled: true,
        T1_enabled: true,
        T2_enabled: true,
        TCPUEnabled: true,
        VBatEnabled: false,
        P_Coefficients: P16Coeffs { Fp0: 0, Ft0: 0, A: [0; 16] },
        T1_Coefficients: T5Coeffs { F0: 0, T0: 0, C: [0; 5] },
        T2_Coefficients: T5Coeffs { F0: 0, T0: 0, C: [0; 5] },
        PWorkRange: range(),
        TWorkRange: range(),
        TCPUWorkRange: range(),
        VbatWorkRange: range(),
        PZeroCorrection: 0,
        TZeroCorrection: 0,
        calibration_date: CalibrationDate { Day: 1, Month: 1, Year: 2025 },
        writeConfig: WriteConfig { BaseInterval_ms: 1000, PWriteDevider: 1, TWriteDevider: 1 },
        startDelay: 0,
        pressureMeassureUnits: PressureMeassureUnits::Pa,
        password: [0u8; 10],
        monitoring: Monitoring { Ovarpress: false, Ovarheat: false, CPUOvarheat: false, OverPower: false },
    };
    (s, NonStoreSettings { current_password: [0u8; 10] })
}

fn constants() -> DeviceConstants {
    DeviceConstants {
        xtal_freq: 48_000_000,
        build_date: BuildDate { year: 2024, month: 1, day: 1 },
        sw_version: 1,
    }
}

fn empty_request() -> WriteSettingsReq {
    WriteSettingsReq {
        set_serial: None,
        set_fref: None,
        set_p_coefficients: None,
        set_t_coefficients: None,
        set_p_work_range: None,
        set_t_work_range: None,
        set_tcpu_work_range: None,
        set_bat_work_range: None,
        set_calibration_date: None,
        set_p_zero_correction: None,
        set_t_zero_correction: None,
        set_write_config: None,
        set_start_delay: None,
        set_pressure_meassure_units: None,
        set_password: None,
    }
}

#[test]
fn settings_tests_monitoring_is_set() {
    let m = Monitoring {
        Ovarpress: false,
        Ovarheat: false,
        CPUOvarheat: false,
        OverPower: false,
    };
    assert!(!m.is_set());

    let m2 = Monitoring {
        Ovarpress: true,
        Ovarheat: false,
        CPUOvarheat: false,
        OverPower: false,
    };
    assert!(m2.is_set());
}

#[test]
fn app_settings_monitoring_is_set() {
    let m = Monitoring {
        Ovarpress: false,
        Ovarheat: false,
        CPUOvarheat: false,
        OverPower: false,
    };
    assert!(!m.is_set());

    let m2 = Monitoring {
        Ovarpress: true,
        Ovarheat: false,
        CPUOvarheat: false,
        OverPower: false,
    };
    assert!(m2.is_set());

    let m3 = Monitoring {
        Ovarpress: false,
        Ovarheat: true,
        CPUOvarheat: false,
        OverPower: false,
    };
    assert!(m3.is_set());

    let m4 = Monitoring {
        Ovarpress: false,
        Ovarheat: false,
        CPUOvarheat: true,
        OverPower: false,
    };
    assert!(m4.is_set());

    let m5 = Monitoring {
        Ovarpress: false,
        Ovarheat: false,
        CPUOvarheat: false,
        OverPower: true,
    };
    assert!(m5.is_set());
}

#[test]
fn appsettings_basic_values() {
    let (s, _) = settings();
    assert_eq!(s.Serial, 123);
    assert!(s.P_enabled);
}

#[test]
fn pressure_unit_codes_round_trip() {
    assert_eq!(PressureMeassureUnits::Pa.code(), 0x00220000);
    assert_eq!(PressureMeassureUnits::from_i32(0x004E0000), Some(PressureMeassureUnits::Bar));
    assert_eq!(PressureMeassureUnits::from_i32(7), None);
}

#[test]
fn strlenn_stops_at_zero_or_limit() {
    assert_eq!(strlenn(&[b'a', b'b', 0, b'c'], 10), 2);
    assert_eq!(strlenn(&[b'a', b'b', b'c'], 2), 2);
    assert_eq!(strlenn(&[b'a', b'b', b'c'], 10), 10);
}

#[test]
fn fill_settings_reports_values_and_lossy_password() {
    let mut s = settings();
    s.1.current_password = [b'a', b'b', 0xff, b'c', 0, 0, 0, 0, 0, 0];
    let mut resp = SettingsResponse::new();
    fill_settings(&mut resp, &s);
    assert_eq!(resp.serial, 123);
    assert_eq!(resp.fref, 48000000);
    assert_eq!(resp.pressure_meassure_units, 0x00220000);
    assert_eq!(resp.password, "ab\u{FFFD}c");
    let wc = resp.write_config.unwrap();
    assert_eq!(wc.base_interval_ms, Some(1000));
}

#[test]
fn update_settings_stores_and_reports_back() {
    let mut s = settings();
    let mut w = empty_request();
    w.set_serial = Some(777);
    w.set_start_delay = Some(5);
    let r = update_settings(&w, &mut s, constants());
    assert_eq!(r, Ok(true));
    let mut resp = SettingsResponse::new();
    fill_settings(&mut resp, &s);
    assert_eq!(resp.serial, 777);
    assert_eq!(resp.start_delay, 5);
}

#[test]
fn update_settings_refuses_small_base_interval() {
    let mut s = settings();
    let mut w = empty_request();
    w.set_write_config = Some(self_writer::protobuf::messages::WriteConfig {
        base_interval_ms: Some(10),
        p_write_devider: None,
        t_write_devider: None,
    });
    let before = s.0.writeConfig;
    let r = update_settings(&w, &mut s, constants());
    assert_eq!(r, Err(SettingActionError::BaseIntervalTooSmall(10)));
    assert_eq!(s.0.writeConfig, before);
}

#[test]
fn update_settings_refuses_fref_far_from_crystal() {
    let mut s = settings();
    let mut w = empty_request();
    w.set_fref = Some(48_001_000);
    let r = update_settings(&w, &mut s, constants());
    assert_eq!(r, Err(SettingActionError::FrefOutOfRange(48_001_000)));
    assert_eq!(s.0.Fref, 48000000);
}

#[test]
fn update_settings_refuses_unknown_unit() {
    let mut s = settings();
    let mut w = empty_request();
    w.set_pressure_meassure_units = Some(3);
    let r = update_settings(&w, &mut s, constants());
    assert_eq!(r, Err(SettingActionError::InvalidMeasureUnit(3)));
}

#[test]
fn password_is_reported_back() {
    let mut s = settings();
    let mut w = empty_request();
    w.set_password = Some(b"secret".to_vec());
    assert!(update_settings(&w, &mut s, constants()).is_ok());
    let mut resp = SettingsResponse::new();
    fill_settings(&mut resp, &s);
    assert_eq!(resp.password, "secret");
    let cmd = ChangePassword { new_password: b"0123456789".to_vec() };
    s.0.password = s.1.current_password;
    assert_eq!(change_password(&cmd, &mut s), Ok(true));
    fill_settings(&mut resp, &s);
    assert_eq!(resp.password, "0123456789");
}

#[test]
fn change_password_twice() {
    let mut s = settings();
    let cmd = ChangePassword { new_password: vec![b'x', b'y'] };
    assert_eq!(change_password(&cmd, &mut s), Ok(true));
    assert_eq!(s.0.password, [b'x', b'y', 0, 0, 0, 0, 0, 0, 0, 0]);
    assert_eq!(s.1.current_password, s.0.password);
    assert_eq!(change_password(&cmd, &mut s), Ok(false));
}

#[test]
fn change_password_refused_with_wrong_current() {
    let mut s = settings();
    s.1.current_password = [1u8; 10];
    let cmd = ChangePassword { new_password: vec![b'x'] };
    assert_eq!(change_password(&cmd, &mut s), Err(SettingActionError::InvalidPassword));
    assert_eq!(s.0.password, [0u8; 10]);
}

#[test]
fn reset_monitoring_when_passwords_differ() {
    let mut s = settings();
    s.0.monitoring.Ovarheat = true;
    assert_eq!(reset_monitoring_flags(&mut s), Err(SettingActionError::InvalidPassword));
    assert!(s.0.monitoring.is_set());
    s.1.current_password = [1u8; 10];
    assert_eq!(reset_monitoring_flags(&mut s), Ok(true));
    assert!(!s.0.monitoring.is_set());
}
