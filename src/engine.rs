use vstd::prelude::*;
use crate::cursor::{CopyCursor, Phase};
use crate::memory::{copy_in_memory, read_sizes, sizes_of};

verus! {

/// Entries in the submission ring: one read or one write is in flight at a time.
pub const RING_ENTRIES: u32 = 2;

/// Idle time, in milliseconds, after which the kernel-side submission poller sleeps.
pub const SQPOLL_IDLE_MS: u32 = 500;

/// A copy engine: the read/write protocol over a buffer of `block_size`
/// bytes, with each instruction asking for at most `request_limit` bytes.
pub trait TurboCopy {
    /// The most bytes one instruction asks for, with a buffer of `block_size` bytes.
    spec fn request_limit(block_size: nat) -> nat;

    /// The engine's cursor for a fresh copy with a buffer of `block_size` bytes.
    fn open_cursor(block_size: usize) -> (c: CopyCursor)
        requires
            block_size > 0,
        ensures
            c.wf(),
            c.block_size() == block_size,
            c.cap() == Self::request_limit(block_size as nat),
            c.offset() == 0,
            c.phase() == Phase::Reading,
    ;

    /// Copies `source` into `target`, both held in memory, as the engine copies
    /// files: `target` is truncated, then filled by one read and its writes per
    /// iteration until a read returns 0 bytes. Returns every read's byte count.
    fn copy_with(source: &Vec<u8>, target: &mut Vec<u8>, blocksize: usize) -> (reads: Vec<usize>)
        requires
            blocksize > 0,
        ensures
            final(target)@ == source@,
            sizes_of(reads@) == read_sizes(source@.len(), Self::request_limit(blocksize as nat)),
    ;
}

/// The engine of blocking `read` and `write` calls at the files' own positions.
#[derive(Clone, Copy, Debug)]
pub struct CopyLibc;

impl TurboCopy for CopyLibc {
    open spec fn request_limit(block_size: nat) -> nat {
        block_size
    }

    fn open_cursor(block_size: usize) -> (c: CopyCursor) {
        CopyCursor::new(block_size, block_size)
    }

    fn copy_with(source: &Vec<u8>, target: &mut Vec<u8>, blocksize: usize) -> (reads: Vec<usize>) {
        copy_in_memory(Self::open_cursor(blocksize), source, target)
    }
}

/// The engine that submits each read and write, at an explicit offset, to a
/// ring polled by the kernel, and waits for its completion. A ring instruction
/// carries a 32-bit length, so requests are cut to `u32::MAX` bytes.
#[derive(Clone, Copy, Debug)]
pub struct CopyIoUring;

impl TurboCopy for CopyIoUring {
    open spec fn request_limit(block_size: nat) -> nat {
        if block_size <= u32::MAX { block_size } else { u32::MAX as nat }
    }

    fn open_cursor(block_size: usize) -> (c: CopyCursor) {
        let cap: usize = if block_size as u64 <= u32::MAX as u64 { block_size } else { u32::MAX as usize };
        CopyCursor::new(block_size, cap)
    }

    fn copy_with(source: &Vec<u8>, target: &mut Vec<u8>, blocksize: usize) -> (reads: Vec<usize>) {
        copy_in_memory(Self::open_cursor(blocksize), source, target)
    }
}

} // verus!
