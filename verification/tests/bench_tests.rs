use self_writer::bench::{
    packet_crc, packet_params, run_benchmark, BenchError, BlockPacker, PackerFactory, PacketParams,
    PushResult,
};

struct CountingPacker {
    pushed: usize,
    capacity: usize,
    overflow_at: Option<usize>,
}

impl BlockPacker for CountingPacker {
    fn push_val(&mut self, _diff: i32) -> PushResult {
        self.pushed += 1;
        if Some(self.pushed) == self.overflow_at {
            return PushResult::Overflow;
        }
        if self.pushed >= self.capacity {
            PushResult::Full
        } else {
            PushResult::Success
        }
    }
    fn finalize(self) -> Option<Vec<u8>> {
        Some(vec![0u8; self.pushed])
    }
}

struct Factory {
    capacity: usize,
    overflow_at: Option<usize>,
    pages: Vec<PacketParams>,
}

impl PackerFactory for Factory {
    type Packer = CountingPacker;
    fn create(&mut self, params: PacketParams) -> CountingPacker {
        self.pages.push(params);
        CountingPacker { pushed: 0, capacity: self.capacity, overflow_at: self.overflow_at }
    }
}

#[test]
fn crc_is_inverted_crc32() {
    assert_eq!(packet_crc(b"123456789"), !0xCBF4_3926u32);
    assert_eq!(packet_crc(b""), !0u32);
}

#[test]
fn page_parameters() {
    let p = packet_params(0);
    assert_eq!(p.prev_block_id, 0);
    let q = packet_params(5);
    assert_eq!(q.prev_block_id, 4);
    assert_eq!(q.this_block_id, 5);
    assert_eq!(q.timestamp, 100);
    assert_eq!(q.size, 4096);
    assert_eq!(f32::from_bits(q.fref), 24_000_000.0);
}

#[test]
fn benchmark_runs_until_a_page_is_full() {
    let mut f = Factory { capacity: 10, overflow_at: None, pages: vec![] };
    let stats = run_benchmark(&mut f, &[1, 2, 3, 4], 2).unwrap();
    // 8 samples after two passes, the first full page needs a third pass
    assert_eq!(stats.dataset_loops, 3);
    assert_eq!(stats.sample_count, 12);
    assert_eq!(stats.input_bytes, 48);
    assert_eq!(stats.block_count, 1);
    assert_eq!(stats.packed_bytes, 10);
    assert_eq!(f.pages.len(), 2);
    assert_eq!(f.pages[1].this_block_id, 1);
}

#[test]
fn benchmark_errors() {
    let mut f = Factory { capacity: 10, overflow_at: Some(3), pages: vec![] };
    assert_eq!(run_benchmark(&mut f, &[1, 2, 3, 4], 1), Err(BenchError::Overflow));
    let mut g = Factory { capacity: 10, overflow_at: None, pages: vec![] };
    assert_eq!(run_benchmark(&mut g, &[], 1), Err(BenchError::SafetyLimit));
}
