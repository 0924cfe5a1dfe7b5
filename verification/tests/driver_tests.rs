use std::cell::RefCell;
use std::rc::Rc;

use self_writer::clocking::ext_rtc::rv_3028_v7::Rv3028v7;

use self_writer::clocking::ext_rtc::{try_detect_i2c_rtc, ExtRtcType, I2cBus};
use self_writer::clocking::{CurrentTime, I2CRtcCtrl, I2CRtcError};
use self_writer::qspi::config::QspiConfig;
use self_writer::qspi::iqspi::IQspi;
use self_writer::qspi::types::{AddressSize, QspiError, QspiMode, QspiReadCommand, QspiWriteCommand};
use self_writer::qspi_storage::flash_config::FlashConfig;
use self_writer::qspi_storage::identification::Identification;
use self_writer::qspi_storage::qspi_driver::{get_jedec_id_cfg, QSpiDriver, SleepState};
use self_writer::qspi_storage::probe;

struct FakeQspi {
    writes: RefCell<Vec<(Option<(u8, QspiMode)>, Vec<u8>)>>,
    id: [u8; 3],
    fmode: u8,
    config: QspiConfig,
}

impl FakeQspi {
    fn new(id: [u8; 3]) -> Self {
        FakeQspi { writes: RefCell::new(Vec::new()), id, fmode: 0, config: QspiConfig::default() }
    }
}

impl IQspi for FakeQspi {
    fn fmode(&self) -> u8 {
        self.fmode
    }
    fn is_busy(&self) -> bool {
        false
    }
    fn abort_transmission(&mut self) {}
    fn get_config(&self) -> QspiConfig {
        self.config
    }
    fn apply_config(&mut self, config: QspiConfig) {
        self.config = config;
    }
    fn transfer(&mut self, command: QspiReadCommand<'_>, buffer: &mut [u8]) -> Result<(), QspiError> {
        if command.receive_length == 3 {
            buffer.copy_from_slice(&self.id);
        }
        Ok(())
    }
    fn write(&mut self, command: QspiWriteCommand<'_>) -> Result<(), QspiError> {
        let data = command.data.map(|(d, _)| d.to_vec()).unwrap_or_default();
        self.writes.borrow_mut().push((command.instruction, data));
        Ok(())
    }
    fn start_memory_mapping(&mut self, _command: QspiWriteCommand<'_>) -> Result<(), QspiError> {
        Ok(())
    }
}

fn chip() -> FlashConfig {
    FlashConfig {
        vendor_id: 0xef,
        capacity_code: 0x18,
        capacity_bytes: 1 << 24,
        write_max_bytes: 256,
        read_dumy_cycles: 6,
        write_dumy_cycles: 0,
        address_size: AddressSize::Addr24Bit,
        enter_deep_sleep_command_code: 0xb9,
        wake_up_command_code: 0xab,
    }
}

#[test]
fn probe_reads_the_chip_id() {
    let mut q = FakeQspi::new([0xef, 0x40, 0x18]);
    let id = probe(&mut q, 48_000_000).unwrap();
    assert_eq!(id, Identification { mfr: 0xef, memory_type: 0x40, capacity: 0x18 });
    assert_eq!(q.config.get_clock_prescaler(), 48);
    let mut absent = FakeQspi::new([0xff, 0xff, 0xff]);
    assert_eq!(get_jedec_id_cfg(&mut absent, true), Err(QspiError::Unknown));
}

#[test]
fn driver_sets_extender_only_on_change() {
    let q = FakeQspi::new([0xef, 0x40, 0x18]);
    let id = Identification { mfr: 0xef, memory_type: 0x40, capacity: 0x18 };
    let mut d = QSpiDriver::init(q, &id, &[chip()], false, 48_000_000).ok().unwrap();
    assert_eq!(d.get_capacity(), 1 << 24);
    assert_eq!(d.set_addr_extender(0x0102_0304), Ok(()));
    assert_eq!(d.set_addr_extender(0x0102_0304), Ok(()));
    assert_eq!(d.write_enable(), Ok(()));
    assert_eq!(d.enter_sleep(), Ok(()));
    assert!(!d.is_memory_mapped());
    let unknown = Identification { mfr: 1, memory_type: 2, capacity: 3 };
    assert!(QSpiDriver::init(FakeQspi::new([1, 2, 3]), &unknown, &[chip()], false, 0).is_err());
    let _ = SleepState::Working;
}

#[test]
fn driver_commands_sent() {
    let q = FakeQspi::new([0xef, 0x40, 0x18]);
    let mut d = QSpiDriver::new(q, chip(), true);
    d.set_addr_extender(0x0102_0304).unwrap();
    d.write_enable().unwrap();
    d.enter_sleep().unwrap();
    assert_eq!(d.get_capacity(), 2 << 24);
    let mut buf = [0u8; 3];
    assert_eq!(d.read_direct(0, &mut buf), Ok(()));
    assert_eq!(buf, [0xef, 0x40, 0x18]);
    assert_eq!(d.config().read_dumy_cycles, 6);
}

struct FakeBus {
    present: u8,
    regs: [u8; 8],
    written: Vec<(u8, Vec<u8>)>,
}

impl I2cBus for FakeBus {
    fn write(&mut self, address: u8, bytes: &[u8]) -> Result<(), ()> {
        if address != self.present {
            return Err(());
        }
        self.written.push((address, bytes.to_vec()));
        Ok(())
    }
    fn read(&mut self, address: u8, buffer: &mut [u8]) -> Result<(), ()> {
        if address != self.present {
            return Err(());
        }
        buffer.copy_from_slice(&self.regs[..buffer.len()]);
        Ok(())
    }
    fn write_read(&mut self, address: u8, _bytes: &[u8], buffer: &mut [u8]) -> Result<(), ()> {
        self.read(address, buffer)
    }
}

#[test]
fn detects_and_drives_rtc_chips() {
    let bus = FakeBus { present: 0x32, regs: [0x30, 0x45, 0x13, 0x10, 0x15, 0x03, 0x24, 0], written: vec![] };
    let mut rtc = try_detect_i2c_rtc(bus).ok().unwrap();
    assert_eq!(rtc.name(), "RX-8130CE");
    let t = rtc.current_time().unwrap();
    assert_eq!(
        t,
        CurrentTime {
            year: 2024,
            month: 3,
            day_of_month: 15,
            day_of_week: 5,
            hours: 13,
            minutes: 45,
            seconds: 30,
            milliseconds: 0
        }
    );
    assert_eq!(rtc.set_tick_period(100), Err(I2CRtcError::UnsupportedSetting));
    assert_eq!(rtc.set_tick_period(1024), Ok(()));
    assert_eq!(rtc.set_time(t), Ok(()));

    let rv = FakeBus { present: 0x52, regs: [0; 8], written: vec![] };
    let mut rtc2 = try_detect_i2c_rtc(rv).ok().unwrap();
    assert!(matches!(rtc2, ExtRtcType::Rv3028v7(_)));
    assert_eq!(rtc2.set_tick_period(1), Ok(()));
    let none = FakeBus { present: 0x10, regs: [0; 8], written: vec![] };
    assert!(try_detect_i2c_rtc(none).is_err());
}

struct SharedBus {
    backup: u8,
    written: Rc<RefCell<Vec<Vec<u8>>>>,
}

impl I2cBus for SharedBus {
    fn write(&mut self, address: u8, bytes: &[u8]) -> Result<(), ()> {
        assert_eq!(address, 0x52);
        self.written.borrow_mut().push(bytes.to_vec());
        Ok(())
    }
    fn read(&mut self, _address: u8, buffer: &mut [u8]) -> Result<(), ()> {
        buffer[0] = self.backup;
        Ok(())
    }
    fn write_read(&mut self, address: u8, bytes: &[u8], buffer: &mut [u8]) -> Result<(), ()> {
        assert_eq!(address, 0x52);
        assert_eq!(bytes, &[0x37]);
        buffer[0] = self.backup;
        Ok(())
    }
}

#[test]
fn rv3028_try_new_configures_backup_switchover() {
    let written = Rc::new(RefCell::new(Vec::new()));
    let bus = SharedBus { backup: 0xff, written: written.clone() };
    assert!(Rv3028v7::try_new(bus).is_ok());
    // BSM field set to 0b11, trickle charge bit cleared, the rest kept
    assert_eq!(*written.borrow(), vec![vec![0x37u8, 0xbf]]);
    let written2 = Rc::new(RefCell::new(Vec::new()));
    let bus2 = SharedBus { backup: 0x00, written: written2.clone() };
    assert!(Rv3028v7::try_new(bus2).is_ok());
    assert_eq!(*written2.borrow(), vec![vec![0x37u8, 0x0c]]);
}
