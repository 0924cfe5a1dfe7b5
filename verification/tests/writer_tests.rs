use self_writer::main_data_storage::diff_writer::{
    pack_page, FlashDiffWriter, PageError, PageSettings, PageWriteResult,
};
use self_writer::bench::{BlockPacker, PushResult};
use self_writer::self_writer::{push_outcome, BlockStart, FData, PackerFault, PackerState};
use self_writer::workmodes::FChannel;

fn settings() -> PageSettings {
    PageSettings { base_interval_ms: 100, interleave_ratio: [1, 2], f_ref: 0x4b00_0000 }
}

#[test]
fn pages_are_handed_out_one_at_a_time() {
    let mut w = FlashDiffWriter::new(1.0f32.to_bits());
    let page = w.try_create_new_page(0, Some(5), Some(settings()), 4096, 64, 1234).ok().unwrap();
    assert_eq!(page.dest_page(), 5);
    assert_eq!(page.prev_block_id(), 0);
    assert_eq!(w.next_page_number(), 6);
    assert!(w.page_aqured());
    assert!(matches!(
        w.try_create_new_page(1, Some(6), Some(settings()), 4096, 64, 0),
        Err(PageError::OutOfMemory)
    ));
    assert_eq!(w.write(page, false, Some(true)), PageWriteResult::Succes(0));
    assert!(!w.page_aqured());
}

#[test]
fn page_errors() {
    let mut w = FlashDiffWriter::new(0);
    assert!(matches!(w.try_create_new_page(0, None, Some(settings()), 4096, 64, 0), Err(PageError::OutOfMemory)));
    assert!(matches!(w.try_create_new_page(0, Some(3), None, 4096, 64, 0), Err(PageError::Timeout)));
    assert_eq!(w.next_page_number(), 3);
    let page = w.try_create_new_page(7, Some(3), Some(settings()), 4096, 64, 0).ok().unwrap();
    assert_eq!(page.prev_block_id(), 6);
    assert_eq!(w.write(page, true, Some(true)), PageWriteResult::Fail(7));
}

#[test]
fn samples_are_differences() {
    let mut w = FlashDiffWriter::new(0);
    // (200 - 64 - 128) / 4 = 2 samples
    let mut page = w.try_create_new_page(0, Some(0), Some(settings()), 200, 64, 0).ok().unwrap();
    assert!(!page.push_data(Some(10), FChannel::Pressure));
    assert!(page.push_data(Some(7), FChannel::Pressure));
    assert!(page.push_data(None, FChannel::Temperature));
    assert_eq!(page.samples(), &[10, -3, 0]);
    page.write_header([1, 2], 3, 4);
    // a tiny page still takes one sample
    let mut w2 = FlashDiffWriter::new(0);
    let mut tiny = w2.try_create_new_page(0, Some(0), Some(settings()), 10, 64, 0).ok().unwrap();
    assert!(tiny.push_data(Some(u32::MAX), FChannel::Temperature));
    assert_eq!(tiny.samples(), &[-1]);
}

#[test]
fn packer_opens_blocks_and_waits_for_both() {
    let mut p = PackerState::new();
    assert_eq!(p.start_block(0, 4), BlockStart::Open { prev_block_id: 0, block_id: 0 });
    assert!(!p.accepts(&FData::Pressure(5)));
    assert!(p.accepts(&FData::Both(5, 6)));
    assert!(p.accepts(&FData::Temperature(8)));
    assert_eq!(p.diff(FChannel::Pressure, 5), 5);
    assert_eq!(p.diff(FChannel::Pressure, 3), -2);
    assert_eq!(p.diff(FChannel::Temperature, i32::MIN), i32::MIN);
    assert!(p.block_stored(1, 4));
    assert_eq!(p.start_block(1, 4), BlockStart::Open { prev_block_id: 0, block_id: 1 });
    assert!(p.block_stored(2, 4));
    assert_eq!(p.start_block(2, 4), BlockStart::Open { prev_block_id: 1, block_id: 2 });
    assert!(!p.block_stored(4, 4));
    assert_eq!(p.start_block(4, 4), BlockStart::StorageFull);
    assert_eq!(FData::Both(1, 2).as_channel(), FChannel::Both);
}

#[test]
fn differences_decode_back() {
    let values = [100i32, -5, i32::MAX, i32::MIN, 0];
    let mut p = PackerState::new();
    let mut prev = 0i32;
    for v in values {
        let d = p.diff(FChannel::Pressure, v);
        assert_eq!(prev.wrapping_add(d), v);
        prev = v;
    }
}

struct RecordingPacker {
    pushed: Vec<i32>,
    room: usize,
}

impl BlockPacker for RecordingPacker {
    fn push_val(&mut self, diff: i32) -> PushResult {
        if self.pushed.len() >= self.room {
            return PushResult::Overflow;
        }
        self.pushed.push(diff);
        if self.pushed.len() == self.room {
            PushResult::Full
        } else {
            PushResult::Success
        }
    }

    fn finalize(self) -> Option<Vec<u8>> {
        None
    }
}

#[test]
fn both_channels_push_pressure_then_temperature() {
    let mut st = PackerState::new();
    let mut packer = RecordingPacker { pushed: Vec::new(), room: 10 };
    assert_eq!(st.push_measurement(&mut packer, FData::Both(100, 50)), Ok(false));
    assert_eq!(st.push_measurement(&mut packer, FData::Pressure(130)), Ok(false));
    assert_eq!(st.push_measurement(&mut packer, FData::Temperature(40)), Ok(false));
    assert_eq!(packer.pushed, vec![100, 50, 30, -10]);
}

#[test]
fn temperature_is_left_out_when_pressure_fills_the_block() {
    let mut st = PackerState::new();
    let mut packer = RecordingPacker { pushed: Vec::new(), room: 1 };
    assert_eq!(st.push_measurement(&mut packer, FData::Both(7, 9)), Ok(true));
    assert_eq!(packer.pushed, vec![7]);
    assert_eq!(st.push_measurement(&mut packer, FData::Both(8, 9)), Err(PackerFault::Overflow));
}

#[test]
fn push_outcomes() {
    assert_eq!(push_outcome(PushResult::Success), Ok(false));
    assert_eq!(push_outcome(PushResult::Full), Ok(true));
    assert_eq!(push_outcome(PushResult::Overflow), Err(PackerFault::Overflow));
    assert_eq!(push_outcome(PushResult::Finished), Err(PackerFault::Finished));
}

#[test]
fn a_page_is_pushed_until_the_packer_is_full() {
    let mut w = FlashDiffWriter::new(0);
    let mut page = w.try_create_new_page(0, Some(0), Some(settings()), 4096, 64, 0).ok().unwrap();
    page.push_data(Some(10), FChannel::Pressure);
    page.push_data(Some(4), FChannel::Temperature);
    page.push_data(Some(12), FChannel::Pressure);
    let mut roomy = RecordingPacker { pushed: Vec::new(), room: 10 };
    assert!(!pack_page(&page, &mut roomy));
    assert_eq!(roomy.pushed, vec![10, 4, 2]);
    let mut small = RecordingPacker { pushed: Vec::new(), room: 2 };
    assert!(!pack_page(&page, &mut small));
    assert_eq!(small.pushed, vec![10, 4]);
    let mut full = RecordingPacker { pushed: vec![0], room: 1 };
    assert!(pack_page(&page, &mut full));
    assert_eq!(full.pushed, vec![0]);
}
