use self_writer::main_data_storage::diff_writer::FlashDiffWriter;
use self_writer::main_data_storage::geometry::{FlashBanks, StorageGeometry};
use self_writer::main_data_storage::mapper::BlockMapper;
use self_writer::main_data_storage::meta::{StorageMetaError, StorageMetaHandle};
use self_writer::protobuf::md::{msg_size_from_varint, MdError};
use self_writer::qspi_storage::flash_config::FlashConfig;
use self_writer::qspi::types::AddressSize;
use self_writer::self_writer::PackerState;
use self_writer::workmodes::FChannel;

fn g(banks: FlashBanks) -> StorageGeometry {
    StorageGeometry { block_size_bytes: 32, write_granularity_bytes: 8, blocks_per_bank: 5, banks }
}

#[test]
fn distinct_blocks_distinct_places() {
    let m = BlockMapper::new(g(FlashBanks::Two));
    let mut seen = Vec::new();
    for b in 0..m.total_blocks() {
        let a = m.map_block(b).unwrap();
        assert!(a.local_block_index < 5);
        assert!(!seen.contains(&(a.bank_index, a.local_block_index)));
        seen.push((a.bank_index, a.local_block_index));
    }
}

#[test]
fn reads_hit_the_written_block() {
    let m = BlockMapper::new(g(FlashBanks::Two));
    for block in 0..m.total_blocks() {
        let b = m.map_block(block).unwrap();
        for o in [0usize, 1, 31] {
            let a = m.map_offset(block as usize * 32 + o).unwrap();
            assert_eq!(a.bank_index, b.bank_index);
            assert_eq!(a.local_byte_offset, b.local_block_index as usize * 32 + o);
        }
    }
}

#[test]
fn erase_requested_once_and_restarts_at_zero() {
    let mut meta = StorageMetaHandle::new(g(FlashBanks::One));
    meta.increment_used_blocks();
    meta.increment_used_blocks();
    assert_eq!(meta.request_erase(), Ok(()));
    assert_eq!(meta.request_erase(), Err(StorageMetaError::EraseAlreadyRequested));
    assert!(meta.take_erase_request());
    meta.reset_used_blocks();
    assert_eq!(meta.used_blocks(), 0);
}

#[test]
fn one_byte_lengths() {
    assert_eq!(msg_size_from_varint(&[1]), Ok(1));
    assert_eq!(msg_size_from_varint(&[127]), Ok(127));
    assert_eq!(msg_size_from_varint(&[0]), Err(MdError::InvalidLength(0)));
}

#[test]
fn wrapped_addresses_recombine() {
    let cfg = FlashConfig {
        vendor_id: 0,
        capacity_code: 0,
        capacity_bytes: 1 << 26,
        write_max_bytes: 256,
        read_dumy_cycles: 0,
        write_dumy_cycles: 0,
        address_size: AddressSize::Addr8Bit,
        enter_deep_sleep_command_code: 0,
        wake_up_command_code: 0,
    };
    for a in [0usize, 1, 0x00ff_ffff, 0x0100_0000, 0x0345_6789] {
        let (ext, addr) = cfg.wrap_adress(a);
        assert_eq!(ext as usize * 0x0100_0000 + addr as usize, a);
    }
}

#[test]
fn page_samples_decode_back() {
    let mut w = FlashDiffWriter::new(0);
    let settings = self_writer::main_data_storage::diff_writer::PageSettings {
        base_interval_ms: 20,
        interleave_ratio: [1, 1],
        f_ref: 0,
    };
    let mut page = w.try_create_new_page(0, Some(0), Some(settings), 4096, 64, 0).ok().unwrap();
    let results = [5u32, u32::MAX, 0x8000_0000, 3];
    for r in results {
        page.push_data(Some(r), FChannel::Temperature);
    }
    let mut prev = 0i32;
    for (i, d) in page.samples().iter().enumerate() {
        prev = prev.wrapping_add(*d);
        assert_eq!(prev, results[i] as i32);
    }
    let mut p = PackerState::new();
    let mut prev = 0i32;
    for v in [7i32, -7, i32::MAX, i32::MIN] {
        prev = prev.wrapping_add(p.diff(FChannel::Pressure, v));
        assert_eq!(prev, v);
    }
}
