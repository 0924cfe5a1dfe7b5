use self_writer::app_settings::{
    AppSettings, CalibrationDate, Monitoring, NonStoreSettings, P16Coeffs, PressureMeassureUnits,
    T5Coeffs, WorkRange, WriteConfig,
};
use self_writer::flash_settings::{InitError, LoadError, SettingsManager, StoragePolicy};
use self_writer::main_data_storage::geometry::{FlashBanks, StorageGeometry};
use self_writer::main_data_storage::meta::StorageMetaHandle;
use self_writer::protobuf::messages::{
    new_response, BuildDate, ChangePassword, Empty, FlashCommand, OutputReq, Request,
    FLASH_STATUS_EREASING, INFO_ID_DISCOVER, INFO_PRESSURE_SELF_WRITER_ID, STATUS_ERRORS_IN_SUBCOMMANDS,
    STATUS_OK, STATUS_PROTOCOL_ERROR,
};
use self_writer::protobuf::output::{OutputGetter, OutputSnapshot};
use self_writer::protobuf::process_request::process_request;
use self_writer::protobuf::process_settings::DeviceConstants;

fn range() -> WorkRange {
    WorkRange { minimum: 0, maximum: 1.0f32.to_bits(), absolute_maximum: 2.0f32.to_bits() }
}

fn settings() -> (AppSettings, NonStoreSettings) {
    let s = AppSettings {
        Serial: 1,
        PMesureTime_ms: 10,
        T1MesureTime_ms: 20,
        T2MesureTime_ms: 30,
        Fref: 24_000_000,
        P_enabled: true,
        T1_enabled: true,
        T2_enabled: false,
        TCPUEnabled: true,
        VBatEnabled: true,
        P_Coefficients: P16Coeffs { Fp0: 0, Ft0: 0, A: [0; 16] },
        T1_Coefficients: T5Coeffs { F0: 0, T0: 0, C: [0; 5] },
        T2_Coefficients: T5Coeffs { F0: 0, T0: 0, C: [0; 5] },
        PWorkRange: range(),
        TWorkRange: range(),
        TCPUWorkRange: range(),
        VbatWorkRange: range(),
        PZeroCorrection: 0,
        TZeroCorrection: 0,
        calibration_date: CalibrationDate { Day: 1, Month: 1, Year: 2025 },
        writeConfig: WriteConfig { BaseInterval_ms: 1000, PWriteDevider: 1, TWriteDevider: 1 },
        startDelay: 0,
        pressureMeassureUnits: PressureMeassureUnits::Bar,
        password: [0u8; 10],
        monitoring: Monitoring { Ovarpress: true, Ovarheat: false, CPUOvarheat: false, OverPower: false },
    };
    (s, NonStoreSettings { current_password: [0u8; 10] })
}

fn constants() -> DeviceConstants {
    DeviceConstants {
        xtal_freq: 24_000_000,
        build_date: BuildDate { year: 2024, month: 6, day: 1 },
        sw_version: 42,
    }
}

struct Output;

impl OutputGetter for Output {
    fn get_output(&mut self) -> OutputSnapshot {
        OutputSnapshot {
            pressure_frequency_present: true,
            temperature_frequency_present: false,
            pressure: 1.5f32.to_bits(),
            temperature: 20.0f32.to_bits(),
            tcpu: 30.0f32.to_bits(),
            vbat: 3.3f32.to_bits(),
            fp: 32768.0f32.to_bits(),
            ft: 0,
            freq_timestamp: 99,
            p_target: 2,
            p_result: 3,
            t_target: 4,
            t_result: 5,
            tcpu_adc: 6,
            vbat_adc: 7,
        }
    }
}

fn request() -> Request {
    Request {
        id: 17,
        device_id: INFO_PRESSURE_SELF_WRITER_ID,
        protocol_version: 1,
        write_settings: None,
        get_info: None,
        change_password: None,
        flash_command: None,
        get_output_values: None,
    }
}

fn meta() -> StorageMetaHandle {
    StorageMetaHandle::new(StorageGeometry {
        block_size_bytes: 4096,
        write_granularity_bytes: 256,
        blocks_per_bank: 8,
        banks: FlashBanks::One,
    })
}

#[test]
fn foreign_device_gets_protocol_error() {
    let mut req = request();
    req.device_id = 0x1234;
    req.get_info = Some(Empty {});
    let mut resp = new_response(req.id, 5);
    let mut s = settings();
    let mut m = meta();
    let r = process_request(&req, &mut resp, &mut Output, &mut s, &mut m, constants());
    assert!(!r);
    assert_eq!(resp.global_status, STATUS_PROTOCOL_ERROR);
    assert!(resp.info.is_none());
    let mut old_version = request();
    old_version.protocol_version = 2;
    let mut resp = new_response(1, 0);
    assert!(!process_request(&old_version, &mut resp, &mut Output, &mut s, &mut m, constants()));
    assert_eq!(resp.global_status, STATUS_PROTOCOL_ERROR);
}

#[test]
fn info_and_output_are_reported() {
    let mut req = request();
    req.device_id = INFO_ID_DISCOVER;
    req.get_info = Some(Empty {});
    req.get_output_values = Some(OutputReq { get_main_values: Some(true), get_f: None, get_raw: Some(true) });
    let mut resp = new_response(req.id, 5);
    let mut s = settings();
    let mut m = meta();
    let r = process_request(&req, &mut resp, &mut Output, &mut s, &mut m, constants());
    assert!(!r);
    assert_eq!(resp.global_status, STATUS_OK);
    let info = resp.info.unwrap();
    assert_eq!(info.sw_version, 42);
    assert!(!info.pressure_channel_failed);
    assert!(info.temperature_channel_failed);
    assert!(info.overpress_detected);
    let out = resp.output.unwrap();
    assert_eq!(out.pressure, Some(1.5f32.to_bits()));
    assert_eq!(out.fp, None);
    assert_eq!(out.p_result.unwrap().result, 3);
    assert_eq!(out.adc_vbat, Some(7));
}

#[test]
fn flash_commands_and_password() {
    let mut req = request();
    req.change_password = Some(ChangePassword { new_password: vec![b'p'] });
    req.flash_command = Some(FlashCommand { reset_monitoring: Some(true), clear_memory: Some(true) });
    let mut resp = new_response(req.id, 5);
    let mut s = settings();
    let mut m = meta();
    let r = process_request(&req, &mut resp, &mut Output, &mut s, &mut m, constants());
    // the password changed; the monitoring reset is refused once the passwords agree
    assert!(r);
    assert!(resp.change_password_status.unwrap().password_changed);
    assert_eq!(resp.global_status, STATUS_ERRORS_IN_SUBCOMMANDS);
    let fs = resp.flash_status.unwrap();
    assert_eq!(fs.status, 2);
    assert_eq!(fs.flash_pages, 8);
    assert!(m.is_erase_requested());
    // a second erase request is refused; the erase is asked for, not running
    let mut again = request();
    again.flash_command = Some(FlashCommand { reset_monitoring: None, clear_memory: Some(true) });
    let mut resp2 = new_response(2, 0);
    process_request(&again, &mut resp2, &mut Output, &mut s, &mut m, constants());
    assert_eq!(resp2.global_status, STATUS_ERRORS_IN_SUBCOMMANDS);
    assert_eq!(resp2.flash_status.unwrap().status, 0);
    // while the erase runs, the state says so
    m.set_erase_in_progress(true);
    let mut resp3 = new_response(3, 0);
    let mut status = request();
    status.flash_command = Some(FlashCommand { reset_monitoring: None, clear_memory: None });
    process_request(&status, &mut resp3, &mut Output, &mut s, &mut m, constants());
    assert_eq!(resp3.flash_status.unwrap().status, FLASH_STATUS_EREASING);
}

struct MemPolicy {
    stored: Option<u32>,
    broken: bool,
    saves: usize,
}

impl StoragePolicy<u32, ()> for MemPolicy {
    fn store(&mut self, v: &u32) -> Result<(), ()> {
        self.saves += 1;
        self.stored = Some(*v);
        Ok(())
    }
    fn load(&mut self) -> Result<u32, LoadError<()>> {
        if self.broken {
            return Err(LoadError::ReadError(()));
        }
        match self.stored {
            Some(v) => Ok(v),
            None => Err(LoadError::ConststenceError),
        }
    }
}

#[test]
fn settings_manager_falls_back_to_defaults() {
    let mut empty = MemPolicy { stored: None, broken: false, saves: 0 };
    let mut m = SettingsManager::new(7u32, 0u8, &mut empty).ok().unwrap();
    assert_eq!(empty.stored, Some(7));
    assert_eq!(empty.saves, 1);
    *m.ref_mut().0 = 9;
    assert_eq!(m.save(&mut empty), Ok(()));
    assert_eq!(empty.stored, Some(9));
    let mut full = MemPolicy { stored: Some(3), broken: false, saves: 0 };
    let mut m2 = SettingsManager::new(7u32, 0u8, &mut full).ok().unwrap();
    assert_eq!(*m2.ref_mut().0, 3);
    assert_eq!(full.saves, 0);
    let mut broken = MemPolicy { stored: None, broken: true, saves: 0 };
    assert!(matches!(SettingsManager::new(7u32, 0u8, &mut broken), Err(InitError::Read(()))));
}
