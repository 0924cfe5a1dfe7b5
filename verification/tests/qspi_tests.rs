use self_writer::qspi::sequence::{config_ops, memory_mapping_ops, transfer_ops, write_ops, RegOp};
use self_writer::qspi::abr;
use self_writer::qspi::config::QspiConfig;
use self_writer::qspi::pir;
use self_writer::qspi::plan::{
    is_memory_mapped_state, pack_alternate_bytes, plan_config, plan_memory_mapping, plan_transfer,
    plan_write, FMODE_INDIRECT_READ, FMODE_INDIRECT_WRITE, FMODE_MEMORY_MAPPED,
};
use self_writer::qspi::types::{
    AddressSize, ClockMode, FlashBank, QspiMode, QspiReadCommand, QspiWriteCommand, SampleShift,
};
use self_writer::qspi_storage::flash_config::FlashConfig;
use self_writer::qspi_storage::identification::Identification;
use self_writer::qspi_storage::qspi_driver::{
    identify, jedec_id_command, read_command, select_flash_config, write_chunks, Opcode,
};
use self_writer::qspi_storage::failsafe_config;
use self_writer::qspi::types::QspiError;

#[test]
fn alternate_bytes_first_byte_highest() {
    assert_eq!(pack_alternate_bytes(&[0x12, 0x34, 0x56]), 0x123456);
    assert_eq!(pack_alternate_bytes(&[0xab]), 0xab);
    assert_eq!(pack_alternate_bytes(&[]), 0);
}

#[test]
fn config_registers_follow_bank_and_settings() {
    let cfg = QspiConfig::default().clock_prescaler(3).clock_mode(ClockMode::Mode3);
    let r = plan_config(&cfg, FlashBank::Both);
    assert_eq!(r.prescaler, 3);
    assert!(r.fsel);
    assert!(r.dfm);
    assert!(r.ckmode);
    assert!(r.sshift);
    assert_eq!(r.fsize, 22);
    let r1 = plan_config(&cfg.sample_shift(SampleShift::NoShift), FlashBank::Bank1);
    assert!(!r1.fsel);
    assert!(!r1.dfm);
    assert!(!r1.sshift);
}

#[test]
fn read_plan_sets_length_and_modes() {
    let cfg = QspiConfig::default();
    let cmd = QspiReadCommand {
        instruction: Some((0xEB, QspiMode::QuadChannel)),
        address: Some((0x1000, QspiMode::QuadChannel)),
        alternative_bytes: None,
        dummy_cycles: 6,
        data_mode: QspiMode::QuadChannel,
        receive_length: 16,
        double_data_rate: false,
    };
    let p = plan_transfer(&cfg, &cmd);
    assert_eq!(p.dlr, Some(15));
    assert_eq!(p.ar, Some(0x1000));
    assert_eq!(p.ccr.fmode, FMODE_INDIRECT_READ);
    assert_eq!(p.ccr.imode, 0b11);
    assert_eq!(p.ccr.admode, 0b11);
    assert_eq!(p.ccr.adsize, 0b10);
    assert_eq!(p.ccr.dcyc, 6);
    assert_eq!(p.ccr.dmode, 0b11);
    assert_eq!(p.ccr.instruction, 0xEB);
    // in QPI mode every phase uses four lines
    let single = QspiReadCommand { instruction: Some((0x9F, QspiMode::SingleChannel)), ..cmd };
    let q = plan_transfer(&cfg.qpi_mode(true), &single);
    assert_eq!(q.ccr.imode, 0b11);
    let s = plan_transfer(&cfg, &single);
    assert_eq!(s.ccr.imode, 0b01);
}

#[test]
fn write_and_mapping_plans() {
    let cfg = QspiConfig::default();
    let data = [1u8, 2, 3];
    let alt = [0xaa, 0xbb];
    let cmd = QspiWriteCommand {
        instruction: Some((0x32, QspiMode::SingleChannel)),
        address: Some((0x20, QspiMode::SingleChannel)),
        alternative_bytes: Some((&alt, QspiMode::SingleChannel)),
        dummy_cycles: 0,
        data: Some((&data, QspiMode::DualChannel)),
        double_data_rate: true,
    };
    let w = plan_write(&cfg, &cmd);
    assert_eq!(w.dlr, Some(2));
    assert_eq!(w.abr, Some(0xaabb));
    assert_eq!(w.ccr.absize, 1);
    assert_eq!(w.ccr.fmode, FMODE_INDIRECT_WRITE);
    assert_eq!(w.ccr.dmode, 0b10);
    assert!(w.ccr.ddrm);
    assert!(w.sshift_off);
    let m = plan_memory_mapping(&cfg, &cmd);
    assert_eq!(m.dlr, Some(u32::MAX));
    assert_eq!(m.ar, None);
    assert!(m.sioo_cleared);
    assert_eq!(m.ccr.fmode, FMODE_MEMORY_MAPPED);
    assert!(is_memory_mapped_state(FlashBank::Bank2, true, false, FMODE_MEMORY_MAPPED));
    assert!(!is_memory_mapped_state(FlashBank::Bank1, true, false, FMODE_MEMORY_MAPPED));
}

#[test]
fn abr_and_pir_fields() {
    let mut w = abr::W::reset();
    w.alternate().bits(0xdeadbeef);
    assert_eq!(w.bits, 0xdeadbeef);
    assert_eq!(abr::R::from_bits(7).alternate().bits(), 7);
    assert_eq!(abr::ABR_SPEC::reset_value(), 0);
    let mut p = pir::W::reset();
    p.bits(0xffff_0000);
    p.interval().bits(0x1234);
    assert_eq!(p.bits, 0xffff_1234);
    assert_eq!(pir::R::from_bits(0xabcd_5678).interval().bits(), 0x5678);
    assert_eq!(pir::PIR_SPEC::reset_value(), 0);
}

#[test]
fn opcode_codes() {
    assert_eq!(Opcode::QIOFastRead.code(), 0xEB);
    assert_eq!(Opcode::WriteAddrExtanderReg.code(), 0xC5);
    assert_eq!(Opcode::ReadJedecId.code(), 0x9F);
}

#[test]
fn jedec_identification() {
    assert_eq!(identify(&[0, 0, 0]), Err(QspiError::Unknown));
    assert_eq!(identify(&[0xff, 0xff, 0xff]), Err(QspiError::Unknown));
    let id = identify(&[0xef, 0x40, 0x18]).unwrap();
    assert_eq!(id.mfr_code(), 0xef);
    assert_eq!(id.device_id(), [0x40, 0x18]);
    let c = jedec_id_command(true);
    assert_eq!(c.instruction, Some((0xAF, QspiMode::QuadChannel)));
    assert_eq!(c.receive_length, 3);
}

fn flash(vendor: u8, cap: u8) -> FlashConfig {
    FlashConfig {
        vendor_id: vendor,
        capacity_code: cap,
        capacity_bytes: 1 << 24,
        write_max_bytes: 256,
        read_dumy_cycles: 6,
        write_dumy_cycles: 0,
        address_size: AddressSize::Addr8Bit,
        enter_deep_sleep_command_code: 0xb9,
        wake_up_command_code: 0xab,
    }
}

#[test]
fn flash_config_lookup_and_commands() {
    let configs = [flash(0xc2, 0x17), flash(0xef, 0x18)];
    let id = Identification { mfr: 0xef, memory_type: 0x40, capacity: 0x18 };
    assert_eq!(select_flash_config(&configs, &id), Some(configs[1]));
    let other = Identification { mfr: 0x01, memory_type: 0x40, capacity: 0x18 };
    assert_eq!(select_flash_config(&configs, &other), None);
    let r = read_command(&configs[1], 0x100, 32);
    assert_eq!(r.dummy_cycles, 6);
    assert_eq!(r.receive_length, 32);
    assert_eq!(configs[1].wrap_adress(0x0123_4567), (1, 0x23_4567));
    assert_eq!(configs[1].capacity(true), 2 << 24);
}

#[test]
fn write_pieces_of_program_size() {
    assert_eq!(write_chunks(600, 256), vec![(0, 256), (256, 512), (512, 600)]);
    assert_eq!(write_chunks(512, 256), vec![(0, 256), (256, 512)]);
    assert_eq!(write_chunks(0, 256), vec![]);
}

#[test]
fn failsafe_settings() {
    let c = failsafe_config(80_000_000);
    assert_eq!(c.get_clock_prescaler(), 80);
    assert_eq!(c.get_clock_mode(), ClockMode::Mode3);
    assert_eq!(c.get_flash_size(), 22);
}

#[test]
fn register_steps_of_a_read() {
    let cfg = QspiConfig::default();
    let alt = [0x12u8];
    let cmd = QspiReadCommand {
        instruction: Some((0xEB, QspiMode::QuadChannel)),
        address: Some((0x40, QspiMode::QuadChannel)),
        alternative_bytes: Some((&alt, QspiMode::QuadChannel)),
        dummy_cycles: 4,
        data_mode: QspiMode::QuadChannel,
        receive_length: 2,
        double_data_rate: true,
    };
    let ops = transfer_ops(&cfg, Some(FlashBank::Bank2), &cmd);
    let plan = plan_transfer(&cfg, &cmd);
    assert_eq!(
        ops,
        vec![
            RegOp::SelectBank { fsel: true, dfm: false },
            RegOp::FailIfBusy,
            RegOp::SetSampleShift(false),
            RegOp::WaitNotBusy,
            RegOp::ClearTransferComplete,
            RegOp::WriteDlr(1),
            RegOp::WriteAbr(0x12),
            RegOp::WriteCcr { ccr: plan.ccr, clear_sioo: false },
            RegOp::WriteAr(0x40),
            RegOp::FailIfTransferError(QspiError::Address),
            RegOp::FailIfTransferError(QspiError::Unknown),
            RegOp::ReceiveData,
            RegOp::AbortIfBusy,
            RegOp::SetSampleShift(true),
            RegOp::WaitNotBusy,
            RegOp::ClearTransferComplete,
        ]
    );
    let wcmd = QspiWriteCommand {
        instruction: Some((0x06, QspiMode::SingleChannel)),
        address: None,
        alternative_bytes: None,
        dummy_cycles: 0,
        data: None,
        double_data_rate: false,
    };
    let w = write_ops(&cfg, None, &wcmd);
    assert_eq!(w.len(), 6);
    assert_eq!(w[0], RegOp::FailIfBusy);
    assert_eq!(w[4], RegOp::WaitTransferComplete);
    let m = memory_mapping_ops(&cfg, Some(FlashBank::Bank1), &wcmd);
    assert_eq!(m[0], RegOp::Enable(false));
    assert_eq!(m[1], RegOp::SetFmode(0b01));
    assert_eq!(m[4], RegOp::WriteDlr(u32::MAX));
    assert_eq!(*m.last().unwrap(), RegOp::Enable(true));
    let c = config_ops(&cfg.clock_prescaler(2), FlashBank::Both);
    assert_eq!(c[3], RegOp::WriteCr { prescaler: 2, fsel: true, dfm: true, sshift: true });
    assert_eq!(c.len(), 9);
}
