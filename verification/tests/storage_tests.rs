use self_writer::main_data_storage::geometry::{FlashBanks, GeometryError, StorageGeometry};
use self_writer::main_data_storage::mapper::{BlockAddress, BlockMapper, MapperError, OffsetAddress};
use self_writer::main_data_storage::meta::{StorageMetaError, StorageMetaHandle};
use self_writer::main_data_storage::storage_core::StorageCore;
use self_writer::main_data_storage::backend::NullBackend;
use self_writer::main_data_storage::runtime::{
    install_meta_handle, refresh_runtime_snapshot, request_erase, used_blocks, StorageRuntime,
};
use self_writer::main_data_storage::types::{StorageContext, StorageError, StorageMode};
use self_writer::qspi::config::QspiConfig;
use self_writer::qspi::types::{AddressSize, QspiError, QspiReadCommand, QspiWriteCommand};
use self_writer::qspi_storage::flash_config::FlashConfig;
use self_writer::qspi_storage::qspi_driver::FlashDriver;
use self_writer::qspi_storage::{
    block_chunk, geometry_from_values, header_unused, map_qspi_error, segment_chunk,
    RuntimeReadAdapter, QSPIStorage,
};

const SEGMENT: usize = 0x0100_0000;

struct MockFlash {
    mem: Vec<u8>,
    extender: u32,
    fail_reads: bool,
}

impl MockFlash {
    fn new(capacity: usize) -> Self {
        MockFlash { mem: vec![0xff; capacity], extender: 0, fail_reads: false }
    }
}

fn chip_config(capacity: usize) -> FlashConfig {
    FlashConfig {
        vendor_id: 0xef,
        capacity_code: 0x18,
        capacity_bytes: capacity,
        write_max_bytes: 256,
        read_dumy_cycles: 6,
        write_dumy_cycles: 0,
        address_size: AddressSize::Addr8Bit,
        enter_deep_sleep_command_code: 0xb9,
        wake_up_command_code: 0xab,
    }
}

impl FlashDriver for MockFlash {
    fn get_capacity(&self) -> usize {
        self.mem.len()
    }
    fn erase(&mut self) -> Result<(), QspiError> {
        for b in self.mem.iter_mut() {
            *b = 0xff;
        }
        Ok(())
    }
    fn write_enable(&mut self) -> Result<(), QspiError> {
        Ok(())
    }
    fn raw_read(&mut self, _command: QspiReadCommand<'_>, _buffer: &mut [u8]) -> Result<(), QspiError> {
        Ok(())
    }
    fn raw_write(&mut self, _command: QspiWriteCommand<'_>) -> Result<(), QspiError> {
        Ok(())
    }
    fn read_direct(&mut self, start_address: u32, dest: &mut [u8]) -> Result<(), QspiError> {
        if self.fail_reads {
            return Err(QspiError::Busy);
        }
        let base = self.extender as usize * SEGMENT + start_address as usize;
        dest.copy_from_slice(&self.mem[base..base + dest.len()]);
        Ok(())
    }
    fn write_block(&mut self, start_address: u32, data: &[u8]) -> Result<(), QspiError> {
        let base = self.extender as usize * SEGMENT + start_address as usize;
        self.mem[base..base + data.len()].copy_from_slice(data);
        Ok(())
    }
    fn config(&self) -> FlashConfig {
        chip_config(self.mem.len())
    }
    fn apply_qspi_config(&mut self, _cfg: QspiConfig) {}
    fn set_memory_mapping_mode(&mut self, _enable: bool) -> Result<(), QspiError> {
        Ok(())
    }
    fn set_addr_extender(&mut self, extender_value: u32) -> Result<(), QspiError> {
        self.extender = extender_value;
        Ok(())
    }
    fn wake_up(&mut self) -> Result<(), QspiError> {
        Ok(())
    }
    fn want_sleep(&mut self) {}
}

fn geometry(banks: FlashBanks) -> StorageGeometry {
    StorageGeometry { block_size_bytes: 16, write_granularity_bytes: 4, blocks_per_bank: 4, banks }
}

#[test]
fn mapper_single_bank() {
    let m = BlockMapper::new(geometry(FlashBanks::One));
    assert_eq!(m.total_blocks(), 4);
    assert_eq!(m.map_block(3), Ok(BlockAddress { bank_index: 0, local_block_index: 3 }));
    assert_eq!(m.map_block(4), Err(MapperError::BlockOutOfRange));
    assert_eq!(m.map_offset(20), Ok(OffsetAddress { bank_index: 0, local_byte_offset: 20 }));
    assert_eq!(m.map_offset(64), Err(MapperError::OffsetOutOfRange));
}

#[test]
fn mapper_dual_bank_alternates() {
    let m = BlockMapper::new(geometry(FlashBanks::Two));
    assert_eq!(m.total_blocks(), 8);
    assert_eq!(m.map_block(0), Ok(BlockAddress { bank_index: 0, local_block_index: 0 }));
    assert_eq!(m.map_block(1), Ok(BlockAddress { bank_index: 1, local_block_index: 0 }));
    assert_eq!(m.map_block(5), Ok(BlockAddress { bank_index: 1, local_block_index: 2 }));
    // byte 3 of block 5
    assert_eq!(m.map_offset(5 * 16 + 3), Ok(OffsetAddress { bank_index: 1, local_byte_offset: 35 }));
    assert_eq!(m.used_size_bytes(3), 48);
    assert_eq!(m.used_size_bytes(100), 128);
}

#[test]
fn geometry_validation_errors() {
    let mut g = geometry(FlashBanks::One);
    assert_eq!(g.validate(), Ok(()));
    g.block_size_bytes = 0;
    assert_eq!(g.validate(), Err(GeometryError::ZeroBlockSize));
    let mut g = geometry(FlashBanks::One);
    g.write_granularity_bytes = 0;
    assert_eq!(g.validate(), Err(GeometryError::ZeroWriteGranularity));
    let mut g = geometry(FlashBanks::One);
    g.blocks_per_bank = 0;
    assert_eq!(g.validate(), Err(GeometryError::ZeroBlocksPerBank));
    let mut g = geometry(FlashBanks::One);
    g.write_granularity_bytes = 5;
    assert_eq!(g.validate(), Err(GeometryError::BlockNotAligned));
}

#[test]
fn meta_handle_erase_protocol() {
    let mut m = StorageMetaHandle::new(geometry(FlashBanks::One));
    assert_eq!(m.used_blocks(), 0);
    m.increment_used_blocks();
    m.set_used_blocks(10);
    assert_eq!(m.used_blocks(), 4);
    assert_eq!(m.request_erase(), Ok(()));
    assert_eq!(m.request_erase(), Err(StorageMetaError::EraseAlreadyRequested));
    assert!(m.take_erase_request());
    assert!(!m.is_erase_requested());
}

#[test]
fn qspi_error_mapping() {
    assert_eq!(map_qspi_error(QspiError::Busy), StorageError::Busy);
    assert_eq!(map_qspi_error(QspiError::Address), StorageError::InvalidAddress);
    assert_eq!(map_qspi_error(QspiError::Unknown), StorageError::Internal);
}

#[test]
fn geometry_from_chip_size() {
    let g = geometry_from_values(8 * 1024 * 1024, 256, FlashBanks::Two);
    assert_eq!(g.block_size_bytes, 4096);
    assert_eq!(g.blocks_per_bank, 2048);
    assert_eq!(g.write_granularity_bytes, 256);
    assert_eq!(g.banks, FlashBanks::Two);
}

#[test]
fn chunks_stop_at_segment_and_block_ends() {
    assert_eq!(segment_chunk(SEGMENT - 4, 10), (0, (SEGMENT - 4) as u32, 4));
    assert_eq!(segment_chunk(SEGMENT + 8, 10), (1, 8, 10));
    let m = BlockMapper::new(geometry(FlashBanks::Two));
    assert_eq!(
        block_chunk(m, 16 + 10, 20),
        Ok((OffsetAddress { bank_index: 1, local_byte_offset: 10 }, 6))
    );
    assert_eq!(block_chunk(m, 128, 1), Err(StorageError::InvalidAddress));
}

#[test]
fn erased_header_is_unused() {
    assert!(header_unused(&[0xff; 8]));
    assert!(!header_unused(&[1, 0, 0, 0, 0, 0, 0, 0]));
    assert!(!header_unused(&[0xff, 0xff, 0xff, 0xff, 0, 0, 0, 0]));
}

#[test]
fn adapter_reads_across_banks() {
    let mut a = MockFlash::new(64);
    let mut b = MockFlash::new(64);
    for i in 0..64 {
        a.mem[i] = i as u8;
        b.mem[i] = 100 + i as u8;
    }
    let mut adapter = RuntimeReadAdapter::new(a, Some(b), BlockMapper::new(geometry(FlashBanks::Two)));
    let mut dest = [0u8; 20];
    // from byte 10 of block 0 (bank 0, local 10) into block 1 (bank 1, local 0)
    assert_eq!(adapter.read_range_via_adapter(10, &mut dest), Ok(()));
    let expected: Vec<u8> = (10u8..16).chain(100u8..114).collect();
    assert_eq!(dest.to_vec(), expected);
    let mut past_end = [0u8; 4];
    assert!(adapter.read_range_via_adapter(126, &mut past_end).is_err());
    let mut none: [u8; 0] = [];
    assert_eq!(adapter.read_range_via_adapter(500, &mut none), Ok(()));
}

#[test]
fn adapter_refuses_missing_second_chip() {
    let a = MockFlash::new(64);
    let mut adapter: RuntimeReadAdapter<MockFlash> =
        RuntimeReadAdapter::new(a, None, BlockMapper::new(geometry(FlashBanks::Two)));
    assert_eq!(adapter.write_block_via_adapter(1, &[0u8; 16]), Err(StorageError::InvalidAddress));
    assert_eq!(adapter.write_block_via_adapter(8, &[0u8; 16]), Err(StorageError::InvalidAddress));
    assert_eq!(adapter.write_block_via_adapter(0, &[7u8; 16]), Ok(()));
    // a read of block 0 goes through; one that runs into block 1 (second chip) is refused
    let mut first = [0u8; 16];
    assert_eq!(adapter.read_range_via_adapter(0, &mut first), Ok(()));
    assert_eq!(first, [7u8; 16]);
    let mut across = [0u8; 20];
    assert_eq!(adapter.read_range_via_adapter(4, &mut across), Err(StorageError::InvalidAddress));
    assert_eq!(&across[..12], &[7u8; 12]);
}

#[test]
fn scan_counts_written_blocks() {
    let mut a = MockFlash::new(64);
    a.mem[0..8].copy_from_slice(&[0, 0, 0, 0, 0, 0, 0, 0]);
    a.mem[16..24].copy_from_slice(&[1, 0, 0, 0, 0, 0, 0, 0]);
    let mut adapter = RuntimeReadAdapter::new(a, None, BlockMapper::new(geometry(FlashBanks::One)));
    assert_eq!(adapter.scan_used_blocks(), 2);
    let mut failing = MockFlash::new(64);
    failing.fail_reads = true;
    let mut adapter = RuntimeReadAdapter::new(failing, None, BlockMapper::new(geometry(FlashBanks::One)));
    assert_eq!(adapter.scan_used_blocks(), 0);
}

#[test]
fn storage_writes_blocks_in_order_and_erases() {
    let chip = MockFlash::new(4 * 4096);
    let storage = QSPIStorage::new_single(chip).ok().unwrap();
    let mut ctx = storage.into_context(StorageMode::Recorder);
    assert_eq!(ctx.total_blocks(), 4);
    assert_eq!(ctx.used_blocks(), 0);
    let block = vec![0x5au8; 4096];
    assert_eq!(ctx.write_next_block(&block), Ok(0));
    assert_eq!(ctx.write_next_block(&block), Ok(1));
    assert_eq!(ctx.used_blocks(), 2);
    assert_eq!(ctx.write_next_block(&[1, 2, 3]), Err(StorageError::InvalidAddress));
    let mut dest = [0u8; 4];
    assert_eq!(ctx.read_range(4096 - 2, &mut dest), Ok(()));
    assert_eq!(dest, [0x5a; 4]);
    ctx.set_mode(StorageMode::Usb);
    assert_eq!(ctx.write_next_block(&block), Err(StorageError::NotReady));
}

#[test]
fn storage_core_erase_resets_used_blocks() {
    let chip = MockFlash::new(4 * 4096);
    let adapter = RuntimeReadAdapter::new(
        chip,
        None,
        BlockMapper::new(geometry_from_values(4 * 4096, 256, FlashBanks::One)),
    );
    let mut core = StorageCore::new(StorageMode::Recorder, adapter).ok().unwrap();
    let block = vec![0u8; 4096];
    assert_eq!(core.write_next_block(&block), Ok(0));
    assert_eq!(core.meta().used_blocks(), 1);
    assert_eq!(core.process_pending_erase(), Ok(false));
    assert_eq!(core.request_erase(), Ok(()));
    assert_eq!(core.process_pending_erase(), Ok(true));
    assert_eq!(core.meta().used_blocks(), 0);
    assert_eq!(core.write_next_block(&block), Ok(0));
}

#[test]
fn dual_storage_scans_alternate_blocks() {
    let mut a = MockFlash::new(2 * 4096);
    let b = MockFlash::new(2 * 4096);
    a.mem[0..8].copy_from_slice(&[0; 8]);
    let storage = QSPIStorage::new_dual(a, b).ok().unwrap();
    let ctx = storage.into_context(StorageMode::Usb);
    assert_eq!(ctx.total_blocks(), 4);
    assert_eq!(ctx.used_blocks(), 1);
}

#[test]
fn lent_bookkeeping_is_the_contexts_own() {
    let g = geometry(FlashBanks::One);
    let mut ctx = StorageContext::new(StorageMode::Recorder, g, 3, NullBackend::new(g));
    assert_eq!(ctx.meta_handle().request_erase(), Ok(()));
    assert!(ctx.erase_handle().has_pending_request());
    assert_eq!(ctx.meta_handle().request_erase(), Err(StorageMetaError::EraseAlreadyRequested));
    assert_eq!(ctx.erase_handle().process_pending_erase(), Ok(true));
    assert_eq!(ctx.used_blocks(), 0);
    assert!(!ctx.erase_handle().has_pending_request());
    assert_eq!(ctx.process_pending_erase(), Ok(false));
}

#[test]
fn runtime_requests_reach_the_context() {
    let g = geometry(FlashBanks::One);
    let mut ctx = StorageContext::new(StorageMode::Usb, g, 2, NullBackend::new(g));
    let mut rt: StorageRuntime<NullBackend> = StorageRuntime::new();
    assert_eq!(request_erase(&rt, ctx.meta_handle()), Err(StorageMetaError::EraseAlreadyInProgress));
    install_meta_handle(&mut rt, ctx.meta_handle());
    assert_eq!(used_blocks(&rt), 2);
    assert_eq!(request_erase(&rt, ctx.meta_handle()), Ok(()));
    assert_eq!(ctx.process_pending_erase(), Ok(true));
    refresh_runtime_snapshot(&mut rt, ctx.meta_handle());
    assert_eq!(used_blocks(&rt), 0);
}
