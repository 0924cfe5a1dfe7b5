use self_writer::app_settings::{
    AppSettings, CalibrationDate, Monitoring, NonStoreSettings, P16Coeffs, PressureMeassureUnits,
    T5Coeffs, WorkRange, WriteConfig,
};
use self_writer::bench::{run_benchmark, BenchError, BlockPacker, PackerFactory, PacketParams, PushResult};
use self_writer::clocking::ext_rtc::rx8130ce::Rx8130ce;
use self_writer::clocking::ext_rtc::rv_3028_v7::Rv3028v7;
use self_writer::clocking::ext_rtc::I2cBus;
use self_writer::clocking::{CurrentTime, I2CRtcCtrl, I2CRtcError};
use self_writer::flash_settings::{InitError, LoadError, SettingsManager, StoragePolicy};
use self_writer::main_data_storage::geometry::{FlashBanks, StorageGeometry};
use self_writer::main_data_storage::meta::{StorageMetaError, StorageMetaHandle};
use self_writer::protobuf::messages::{self as msg, BuildDate, DateField, Validator, WorkRangeError};
use self_writer::protobuf::process_settings::{
    update_settings, DeviceConstants, SettingActionError, SettingsParameter,
};
use self_writer::protobuf::{ProtobufProcessError, ProtobufProcessInputError};

fn range() -> WorkRange {
    WorkRange { minimum: 0, maximum: 1.0f32.to_bits(), absolute_maximum: 2.0f32.to_bits() }
}

fn settings() -> (AppSettings, NonStoreSettings) {
    let s = AppSettings {
        Serial: 1,
        PMesureTime_ms: 10,
        T1MesureTime_ms: 20,
        T2MesureTime_ms: 30,
        Fref: 24_000_000,
        P_enabled: true,
        T1_enabled: true,
        T2_enabled: false,
        TCPUEnabled: true,
        VBatEnabled: true,
        P_Coefficients: P16Coeffs { Fp0: 0, Ft0: 0, A: [0; 16] },
        T1_Coefficients: T5Coeffs { F0: 0, T0: 0, C: [0; 5] },
        T2_Coefficients: T5Coeffs { F0: 0, T0: 0, C: [0; 5] },
        PWorkRange: range(),
        TWorkRange: range(),
        TCPUWorkRange: range(),
        VbatWorkRange: range(),
        PZeroCorrection: 0,
        TZeroCorrection: 0,
        calibration_date: CalibrationDate { Day: 1, Month: 1, Year: 2025 },
        writeConfig: WriteConfig { BaseInterval_ms: 1000, PWriteDevider: 1, TWriteDevider: 1 },
        startDelay: 0,
        pressureMeassureUnits: PressureMeassureUnits::Bar,
        password: [0u8; 10],
        monitoring: Monitoring::default(),
    };
    (s, NonStoreSettings { current_password: [0u8; 10] })
}

fn constants() -> DeviceConstants {
    DeviceConstants { xtal_freq: 24_000_000, build_date: BuildDate { year: 2024, month: 6, day: 10 }, sw_version: 1 }
}

fn request() -> msg::WriteSettingsReq {
    msg::WriteSettingsReq {
        set_serial: None,
        set_fref: None,
        set_p_coefficients: None,
        set_t_coefficients: None,
        set_p_work_range: None,
        set_t_work_range: None,
        set_tcpu_work_range: None,
        set_bat_work_range: None,
        set_calibration_date: None,
        set_p_zero_correction: None,
        set_t_zero_correction: None,
        set_write_config: None,
        set_start_delay: None,
        set_pressure_meassure_units: None,
        set_password: None,
    }
}

fn wr(min: f32, max: f32, abs: f32) -> msg::WorkRange {
    msg::WorkRange { minimum: Some(min.to_bits()), maximum: Some(max.to_bits()), absolute_maximum: Some(abs.to_bits()) }
}

#[test]
fn protected_settings_need_the_password() {
    let mut s = settings();
    s.1.current_password = [9u8; 10];
    let mut w = request();
    w.set_serial = Some(5);
    assert_eq!(
        update_settings(&w, &mut s, constants()),
        Err(SettingActionError::PasswordRequired(SettingsParameter::Serial))
    );
    let mut w = request();
    w.set_fref = Some(24_000_000);
    assert_eq!(
        update_settings(&w, &mut s, constants()),
        Err(SettingActionError::PasswordRequired(SettingsParameter::Fref))
    );
}

#[test]
fn work_range_errors() {
    assert_eq!(wr(0.0, 2.0, 1.0).validate(), Err(WorkRangeError::MaximumAboveAbasoluteMaximum));
    assert_eq!(wr(3.0, 1.0, 4.0).validate(), Err(WorkRangeError::MinimumAboveMaximum));
    let r = msg::WorkRange { minimum: Some(5.0f32.to_bits()), maximum: None, absolute_maximum: Some(4.0f32.to_bits()) };
    assert_eq!(r.validate(), Err(WorkRangeError::MinimumAboveAbsoluteMaximum));
    assert_eq!(wr(-1.0, 1.0, 2.0).validate(), Ok(()));
    let mut s = settings();
    let mut w = request();
    w.set_t_work_range = Some(wr(3.0, 1.0, 4.0));
    assert_eq!(
        update_settings(&w, &mut s, constants()),
        Err(SettingActionError::WorkRangeInvalid(
            SettingsParameter::TWorkRange,
            WorkRangeError::MinimumAboveMaximum
        ))
    );
}

#[test]
fn calibration_date_errors() {
    let b = BuildDate { year: 2024, month: 6, day: 10 };
    let d = |day: u32, month: u32, year: u32| msg::CalibrationDate { day: Some(day), month: Some(month), year: Some(year) };
    assert_eq!(d(32, 1, 2025).validate(b), Err(DateField::Day));
    assert_eq!(d(1, 13, 2025).validate(b), Err(DateField::Month));
    assert_eq!(d(1, 0, 2025).validate(b), Err(DateField::Month));
    assert_eq!(d(1, 7, 2023).validate(b), Err(DateField::Past));
    assert_eq!(d(9, 6, 2024).validate(b), Err(DateField::Past));
    assert_eq!(d(10, 6, 2024).validate(b), Ok(()));
    let mut s = settings();
    let mut w = request();
    w.set_calibration_date = Some(d(40, 1, 2025));
    assert_eq!(
        update_settings(&w, &mut s, constants()),
        Err(SettingActionError::CalibrationDateInvalid(DateField::Day))
    );
}

#[test]
fn write_divider_errors() {
    let mut s = settings();
    let mut w = request();
    w.set_write_config = Some(msg::WriteConfig { base_interval_ms: None, p_write_devider: Some(0), t_write_devider: None });
    assert_eq!(update_settings(&w, &mut s, constants()), Err(SettingActionError::PWriteDividerZero));
    w.set_write_config = Some(msg::WriteConfig { base_interval_ms: None, p_write_devider: None, t_write_devider: Some(0) });
    assert_eq!(update_settings(&w, &mut s, constants()), Err(SettingActionError::TWriteDividerZero));
}

#[test]
fn erase_refused_while_running() {
    let mut m = StorageMetaHandle::new(StorageGeometry {
        block_size_bytes: 16,
        write_granularity_bytes: 4,
        blocks_per_bank: 2,
        banks: FlashBanks::One,
    });
    m.set_erase_in_progress(true);
    assert_eq!(m.request_erase(), Err(StorageMetaError::EraseAlreadyInProgress));
}

struct DeadBus;

impl I2cBus for DeadBus {
    fn write(&mut self, _address: u8, _bytes: &[u8]) -> Result<(), ()> {
        Err(())
    }
    fn read(&mut self, _address: u8, _buffer: &mut [u8]) -> Result<(), ()> {
        Err(())
    }
    fn write_read(&mut self, _address: u8, _bytes: &[u8], _buffer: &mut [u8]) -> Result<(), ()> {
        Err(())
    }
}

#[test]
fn bus_errors() {
    let mut rtc = Rx8130ce::new(DeadBus);
    assert_eq!(rtc.current_time(), Err(I2CRtcError::I2cReadError));
    assert_eq!(rtc.set_time(CurrentTime::default()), Err(I2CRtcError::I2cWriteError));
    assert_eq!(rtc.set_tick_period(1), Err(I2CRtcError::I2cWriteError));
    let mut rv = Rv3028v7::new(DeadBus);
    assert_eq!(rv.configure_bsm(), Err(I2CRtcError::I2cReadError));
    assert!(matches!(Rv3028v7::try_new(DeadBus), Err(I2CRtcError::I2cReadError)));
    assert_eq!(rv.set_tick_period(1), Err(I2CRtcError::I2cWriteError));
}

struct Finishing(bool);

impl BlockPacker for Finishing {
    fn push_val(&mut self, _diff: i32) -> PushResult {
        if self.0 { PushResult::Finished } else { PushResult::Full }
    }
    fn finalize(self) -> Option<Vec<u8>> {
        None
    }
}

struct FinishingFactory(bool);

impl PackerFactory for FinishingFactory {
    type Packer = Finishing;
    fn create(&mut self, _params: PacketParams) -> Finishing {
        Finishing(self.0)
    }
}

#[test]
fn benchmark_packer_errors() {
    assert_eq!(run_benchmark(&mut FinishingFactory(true), &[1], 1), Err(BenchError::Finished));
    assert_eq!(run_benchmark(&mut FinishingFactory(false), &[1], 1), Err(BenchError::FinalizeFailed));
}

struct FailingStore;

impl StoragePolicy<u8, u8> for FailingStore {
    fn store(&mut self, _v: &u8) -> Result<(), u8> {
        Err(3)
    }
    fn load(&mut self) -> Result<u8, LoadError<u8>> {
        Err(LoadError::ConststenceError)
    }
}

#[test]
fn default_settings_that_cannot_be_saved() {
    assert!(matches!(SettingsManager::new(1u8, (), &mut FailingStore), Err(InitError::SaveDefault(3))));
}

#[test]
fn process_errors_wrap_their_causes() {
    let e: ProtobufProcessError<u8, u16> = ProtobufProcessError::from_output_error(4);
    assert!(matches!(e, ProtobufProcessError::Output(4)));
    let i: ProtobufProcessInputError<u8> = ProtobufProcessInputError::from_input_error(2);
    let p: ProtobufProcessError<u8, u16> = ProtobufProcessError::from_input(i);
    assert!(matches!(p, ProtobufProcessError::Input(2)));
    let d: ProtobufProcessError<u8, u16> = Default::default();
    assert!(matches!(d, ProtobufProcessError::Done));
}
