use turbocopy::cursor::{CopyCursor, CopyError, IoOutcome, Phase, Request};
use turbocopy::engine::{CopyIoUring, CopyLibc, TurboCopy};
use turbocopy::memory::{copy_in_memory, read_at, write_at};
use turbocopy::sizing::transfer_block_size;

fn pseudo_random(len: usize, seed: u64) -> Vec<u8> {
    let mut state = seed;
    let mut out = Vec::with_capacity(len);
    for _ in 0..len {
        state = state.wrapping_mul(6364136223846793005).wrapping_add(1442695040888963407);
        out.push((state >> 33) as u8);
    }
    out
}

fn expected_reads(len: usize, block: usize) -> Vec<usize> {
    let mut reads = Vec::new();
    let mut left = len;
    while left > 0 {
        let k = left.min(block);
        reads.push(k);
        left -= k;
    }
    reads.push(0);
    reads
}

#[test]
fn round_trip_all_sizes_both_engines() {
    for &block in &[1usize, 512, 4096, 1 << 20] {
        let mut sizes = vec![0usize, 1, block - 1, block, block + 1, 3 * block];
        if block == 1 {
            sizes.push(40);
        }
        for &n in &sizes {
            let source = pseudo_random(n, n as u64 + block as u64);
            let mut a = Vec::new();
            let reads = CopyLibc::copy_with(&source, &mut a, block);
            assert_eq!(a, source);
            assert_eq!(reads, expected_reads(n, block));
            let mut b = Vec::new();
            let reads = CopyIoUring::copy_with(&source, &mut b, block);
            assert_eq!(b, source);
            assert_eq!(reads, expected_reads(n, block));
        }
    }
}

#[test]
fn copying_twice_equals_copying_once() {
    let source = pseudo_random(5000, 7);
    let mut once = Vec::new();
    CopyLibc::copy_with(&source, &mut once, 512);
    let mut twice = Vec::new();
    CopyLibc::copy_with(&source, &mut twice, 512);
    CopyLibc::copy_with(&source, &mut twice, 512);
    assert_eq!(once, twice);
    let mut ring_twice = Vec::new();
    CopyIoUring::copy_with(&source, &mut ring_twice, 512);
    CopyIoUring::copy_with(&source, &mut ring_twice, 512);
    assert_eq!(once, ring_twice);
}

#[test]
fn engines_produce_identical_destinations() {
    for &n in &[0usize, 3, 4095, 4096, 12289] {
        let source = pseudo_random(n, 99);
        let mut a = vec![1u8; 7];
        let mut b = vec![2u8; 20000];
        let ra = CopyLibc::copy_with(&source, &mut a, 4096);
        let rb = CopyIoUring::copy_with(&source, &mut b, 4096);
        assert_eq!(a, b);
        assert_eq!(ra, rb);
    }
}

#[test]
fn empty_source_gives_empty_destination_after_one_read() {
    let source: Vec<u8> = Vec::new();
    let mut target = vec![9u8; 100];
    let reads = CopyLibc::copy_with(&source, &mut target, 4096);
    assert!(target.is_empty());
    assert_eq!(reads, vec![0]);
    let mut target = vec![9u8; 100];
    let reads = CopyIoUring::copy_with(&source, &mut target, 4096);
    assert!(target.is_empty());
    assert_eq!(reads, vec![0]);
}

#[test]
fn larger_destination_is_truncated() {
    let source = pseudo_random(1000, 3);
    let mut target = vec![0xAAu8; 50_000];
    CopyLibc::copy_with(&source, &mut target, 512);
    assert_eq!(target.len(), 1000);
    assert_eq!(target, source);
    let mut target = vec![0xAAu8; 50_000];
    CopyIoUring::copy_with(&source, &mut target, 512);
    assert_eq!(target.len(), 1000);
    assert_eq!(target, source);
}

#[test]
fn ten_thousand_bytes_in_blocks_of_4096() {
    let source = pseudo_random(10_000, 2024);
    let mut target = Vec::new();
    let reads = CopyLibc::copy_with(&source, &mut target, 4096);
    assert_eq!(reads, vec![4096, 4096, 1808, 0]);
    assert_eq!(target.len(), 10_000);
    assert_eq!(target, source);
    let mut target = Vec::new();
    let reads = CopyIoUring::copy_with(&source, &mut target, 4096);
    assert_eq!(reads, vec![4096, 4096, 1808, 0]);
    assert_eq!(target, source);
}

#[test]
fn cursor_walks_reads_and_writes() {
    let mut c = CopyLibc::open_cursor(4096);
    assert_eq!(c.request(), Request::Read { offset: 0, len: 4096 });
    c.complete(IoOutcome::Transferred(4096));
    assert_eq!(c.request(), Request::Write { offset: 0, start: 0, len: 4096 });
    c.complete(IoOutcome::Transferred(4096));
    assert_eq!(c.offset_of(), 4096);
    assert_eq!(c.request(), Request::Read { offset: 4096, len: 4096 });
    c.complete(IoOutcome::Transferred(1808));
    assert_eq!(c.request(), Request::Write { offset: 4096, start: 0, len: 1808 });
    c.complete(IoOutcome::Transferred(1808));
    assert_eq!(c.request(), Request::Read { offset: 5904, len: 4096 });
    c.complete(IoOutcome::Transferred(0));
    assert_eq!(c.phase_of(), Phase::Finished);
    assert!(!c.is_running());
    assert_eq!(c.request(), Request::Finish { total: 5904 });
}

#[test]
fn short_write_is_continued() {
    let mut c = CopyIoUring::open_cursor(100);
    c.complete(IoOutcome::Transferred(100));
    c.complete(IoOutcome::Transferred(30));
    assert_eq!(c.phase_of(), Phase::Writing { filled: 100, flushed: 30 });
    assert_eq!(c.request(), Request::Write { offset: 30, start: 30, len: 70 });
    c.complete(IoOutcome::Transferred(70));
    assert_eq!(c.request(), Request::Read { offset: 100, len: 100 });
}

#[test]
fn failed_read_aborts_at_its_offset() {
    let mut c = CopyCursor::new(64, 64);
    c.complete(IoOutcome::Transferred(64));
    c.complete(IoOutcome::Transferred(64));
    c.complete(IoOutcome::Failed(-5));
    assert_eq!(c.request(), Request::Abort(CopyError::Io { offset: 64, code: -5 }));
}

#[test]
fn failed_write_aborts_at_its_offset() {
    let mut c = CopyCursor::new(64, 64);
    c.complete(IoOutcome::Transferred(40));
    c.complete(IoOutcome::Transferred(10));
    c.complete(IoOutcome::Failed(-28));
    assert_eq!(c.request(), Request::Abort(CopyError::Io { offset: 10, code: -28 }));
}

#[test]
fn overlong_read_aborts() {
    let mut c = CopyCursor::new(64, 64);
    c.complete(IoOutcome::Transferred(65));
    assert_eq!(c.phase_of(), Phase::Failed(CopyError::Overlong { offset: 0, len: 65 }));
}

#[test]
fn overlong_write_aborts() {
    let mut c = CopyCursor::new(64, 64);
    c.complete(IoOutcome::Transferred(20));
    c.complete(IoOutcome::Transferred(21));
    assert_eq!(c.phase_of(), Phase::Failed(CopyError::Overlong { offset: 0, len: 21 }));
}

#[test]
fn stalled_write_aborts() {
    let mut c = CopyCursor::new(64, 64);
    c.complete(IoOutcome::Transferred(20));
    c.complete(IoOutcome::Transferred(5));
    c.complete(IoOutcome::Transferred(0));
    assert_eq!(c.phase_of(), Phase::Failed(CopyError::Stalled { offset: 5 }));
    assert!(!c.is_running());
}

#[test]
fn raw_completion_results_are_classified() {
    assert_eq!(IoOutcome::from_raw(0), IoOutcome::Transferred(0));
    assert_eq!(IoOutcome::from_raw(4096), IoOutcome::Transferred(4096));
    assert_eq!(IoOutcome::from_raw(-9), IoOutcome::Failed(-9));
}

#[test]
fn ring_requests_fit_in_32_bits() {
    let big = u32::MAX as usize + 10;
    let c = CopyIoUring::open_cursor(big);
    assert_eq!(c.block_size_of(), big);
    assert_eq!(c.request(), Request::Read { offset: 0, len: u32::MAX as usize });
    let s = CopyLibc::open_cursor(big);
    assert_eq!(s.request(), Request::Read { offset: 0, len: big });
}

#[test]
fn block_size_defaults_to_32_device_blocks() {
    assert_eq!(transfer_block_size(4096, None), Some(131_072));
    assert_eq!(transfer_block_size(512, None), Some(16_384));
    assert_eq!(transfer_block_size(4096, Some(1000)), Some(1000));
    assert_eq!(transfer_block_size(0, None), None);
    assert_eq!(transfer_block_size(-1, None), None);
    assert_eq!(transfer_block_size(4096, Some(0)), None);
    assert_eq!(transfer_block_size(4096, Some(-8)), None);
    assert_eq!(transfer_block_size(i64::MAX, None), None);
}

#[test]
fn read_at_stops_at_end_of_source() {
    let source = vec![1u8, 2, 3, 4, 5];
    let mut buf = vec![0u8; 4];
    assert_eq!(read_at(&source, 0, &mut buf, 4), 4);
    assert_eq!(buf, vec![1, 2, 3, 4]);
    assert_eq!(read_at(&source, 3, &mut buf, 4), 2);
    assert_eq!(&buf[..2], &[4, 5]);
    assert_eq!(read_at(&source, 5, &mut buf, 4), 0);
}

#[test]
fn write_at_overwrites_and_extends() {
    let buf = vec![7u8, 8, 9, 10];
    let mut file = vec![1u8, 2, 3, 4, 5, 6];
    write_at(&mut file, 1, &buf, 1, 2);
    assert_eq!(file, vec![1, 8, 9, 4, 5, 6]);
    write_at(&mut file, 5, &buf, 0, 4);
    assert_eq!(file, vec![1, 8, 9, 4, 5, 7, 8, 9, 10]);
    write_at(&mut file, 9, &buf, 3, 1);
    assert_eq!(file, vec![1, 8, 9, 4, 5, 7, 8, 9, 10, 10]);
}

#[test]
fn memory_copy_with_a_narrow_cursor() {
    let source = pseudo_random(10, 5);
    let mut target = vec![3u8; 2];
    let reads = copy_in_memory(CopyCursor::new(8, 3), &source, &mut target);
    assert_eq!(reads, vec![3, 3, 3, 1, 0]);
    assert_eq!(target, source);
}
