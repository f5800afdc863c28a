use vstd::prelude::*;
use crate::cursor::{CopyCursor, IoOutcome, Phase, Request};

verus! {

/// The bytes each read returns when a file of `len` bytes is read front to
/// back with requests of `cap` bytes: full requests, then the rest, then the
/// 0-byte read that signals end of file.
pub open spec fn read_sizes(len: nat, cap: nat) -> Seq<nat>
    decreases len,
{
    if len == 0 || cap == 0 {
        seq![0nat]
    } else {
        let k = if cap < len { cap } else { len };
        seq![k] + read_sizes((len - k) as nat, cap)
    }
}

/// A file of `file.len()` bytes after `bytes` are written into it at `offset`:
/// what lies under them is replaced, and the file grows where they reach past its end.
pub open spec fn written_at(file: Seq<u8>, offset: nat, bytes: Seq<u8>) -> Seq<u8> {
    let end = offset + bytes.len();
    if end < file.len() {
        file.subrange(0, offset as int) + bytes + file.subrange(end as int, file.len() as int)
    } else {
        file.subrange(0, offset as int) + bytes
    }
}

/// The byte counts of `reads`, as numbers.
pub open spec fn sizes_of(reads: Seq<usize>) -> Seq<nat> {
    reads.map_values(|n: usize| n as nat)
}

/// What holds at the top of each iteration of `copy_in_memory`.
pub open spec fn progress(
    cur: CopyCursor,
    source: Seq<u8>,
    target: Seq<u8>,
    buf: Seq<u8>,
    reads: Seq<usize>,
) -> bool {
    let len = source.len();
    let cap = cur.cap();
    let offset = cur.offset();
    &&& offset <= len
    &&& match cur.phase() {
        Phase::Reading => {
            &&& target == source.subrange(0, offset as int)
            &&& read_sizes(len, cap) == sizes_of(reads) + read_sizes((len - offset) as nat, cap)
        },
        Phase::Writing { filled, flushed } => {
            &&& offset + filled <= len
            &&& filled == (if cap < len - offset { cap as int } else { len - offset })
            &&& filled <= buf.len()
            &&& buf.subrange(0, filled as int) == source.subrange(offset as int, offset + filled)
            &&& target == source.subrange(0, offset + flushed)
            &&& read_sizes(len, cap) == sizes_of(reads) + read_sizes((len - offset - filled) as nat, cap)
        },
        Phase::Finished => {
            &&& target == source
            &&& sizes_of(reads) == read_sizes(len, cap)
        },
        Phase::Failed(_) => false,
    }
}

/// A measure that each instruction of `copy_in_memory` brings down.
pub open spec fn remaining_steps(cur: CopyCursor, len: nat) -> int {
    3 * (len - cur.offset()) + match cur.phase() {
        Phase::Reading => 2int,
        Phase::Writing { .. } => 1int,
        _ => 0int,
    }
}

/// Copies `source` into `target` through the read/write protocol of `cursor`,
/// with both files held in memory: `target` is truncated first, then each
/// read fills one buffer of the cursor's block size, which the writes put
/// back at the same offset. Returns the byte count of every read, the final
/// 0-byte read included.
pub fn copy_in_memory(cursor: CopyCursor, source: &Vec<u8>, target: &mut Vec<u8>) -> (reads: Vec<usize>)
    requires
        cursor.wf(),
        cursor.offset() == 0,
        cursor.phase() == Phase::Reading,
    ensures
        final(target)@ == source@,
        sizes_of(reads@) == read_sizes(source@.len(), cursor.cap()),
{
    let mut cur = cursor;
    target.clear();
    let mut buf: Vec<u8> = vec![0u8; cur.block_size_of()];
    let mut reads: Vec<usize> = Vec::new();
    let total = source.len();
    proof {
        assert(source@.subrange(0, 0) =~= target@);
        assert(sizes_of(reads@) + read_sizes(total as nat, cur.cap()) =~= read_sizes(total as nat, cur.cap()));
    }
    while cur.is_running()
        invariant
            cur.wf(),
            cur.cap() == cursor.cap(),
            buf@.len() == cur.block_size(),
            total == source@.len(),
            progress(cur, source@, target@, buf@, reads@),
        decreases remaining_steps(cur, source@.len()),
    {
        let ghost before = reads@;
        match cur.request() {
            Request::Read { offset, len } => {
                let n = read_at(source, offset as usize, &mut buf, len);
                reads.push(n);
                proof {
                    let rest = (source@.len() - offset) as nat;
                    assert(sizes_of(reads@) =~= sizes_of(before) + seq![n as nat]);
                    if n > 0 {
                        assert(read_sizes(rest, cur.cap()) == seq![n as nat] + read_sizes((rest - n) as nat, cur.cap()));
                        assert(sizes_of(reads@) + read_sizes((rest - n) as nat, cur.cap())
                            =~= sizes_of(before) + read_sizes(rest, cur.cap()));
                    } else {
                        assert(source@.subrange(0, offset as int) =~= source@);
                        assert(sizes_of(reads@) =~= sizes_of(before) + read_sizes(rest, cur.cap()));
                    }
                }
                cur.complete(IoOutcome::Transferred(n));
            },
            Request::Write { offset, start, len } => {
                let ghost old_target = target@;
                write_at(target, offset as usize, &buf, start, len);
                proof {
                    let base = cur.offset() as int;
                    let filled = (start + len) as int;
                    let lhs = buf@.subrange(start as int, start + len);
                    let rhs = source@.subrange(offset as int, offset + len);
                    assert forall|j: int| 0 <= j < len implies #[trigger] lhs[j] == rhs[j] by {
                        assert(buf@.subrange(0, filled)[start + j] == source@.subrange(base, base + filled)[start + j]);
                    }
                    assert(lhs =~= rhs);
                    assert(target@ =~= source@.subrange(0, offset + len));
                }
                cur.complete(IoOutcome::Transferred(len));
            },
            _ => {},
        }
    }
    reads
}

/// Reads up to `len` bytes of `source` from `offset` into the start of `buf`,
/// and returns how many it read: all of them, or what is left of the source.
pub fn read_at(source: &Vec<u8>, offset: usize, buf: &mut Vec<u8>, len: usize) -> (n: usize)
    requires
        offset <= source@.len(),
        len <= old(buf)@.len(),
    ensures
        n == if len < source@.len() - offset { len as int } else { source@.len() - offset },
        final(buf)@.len() == old(buf)@.len(),
        final(buf)@.subrange(0, n as int) == source@.subrange(offset as int, offset + n),
{
    let total = source.len();
    let n: usize = if len < total - offset { len } else { total - offset };
    let mut i: usize = 0;
    while i < n
        invariant
            total == source@.len(),
            n <= len <= buf@.len(),
            offset + n <= source@.len(),
            buf@.len() == old(buf)@.len(),
            0 <= i <= n,
            forall|j: int| 0 <= j < i ==> buf@[j] == source@[offset + j],
        decreases n - i,
    {
        buf.set(i, source[offset + i]);
        i = i + 1;
    }
    assert(buf@.subrange(0, n as int) =~= source@.subrange(offset as int, offset + n));
    n
}

/// Writes the bytes `start .. start + len` of `buf` into `file` at `offset`.
pub fn write_at(file: &mut Vec<u8>, offset: usize, buf: &Vec<u8>, start: usize, len: usize)
    requires
        offset <= old(file)@.len(),
        start + len <= buf@.len(),
        offset + len <= usize::MAX,
    ensures
        final(file)@ == written_at(old(file)@, offset as nat, buf@.subrange(start as int, start + len)),
{
    let ghost before = file@;
    let room = buf.len();
    let mut i: usize = 0;
    while i < len
        invariant
            room == buf@.len(),
            offset <= before.len(),
            start + len <= buf@.len(),
            offset + len <= usize::MAX,
            0 <= i <= len,
            file@ == written_at(before, offset as nat, buf@.subrange(start as int, start + i)),
        decreases len - i,
    {
        let pos = offset + i;
        proof {
            assert(buf@.subrange(start as int, start + i + 1) =~= buf@.subrange(start as int, start + i).push(buf@[start + i]));
        }
        if pos < file.len() {
            file.set(pos, buf[start + i]);
        } else {
            file.push(buf[start + i]);
        }
        proof {
            let next = buf@.subrange(start as int, start + i + 1);
            assert(file@ =~= written_at(before, offset as nat, next));
        }
        i = i + 1;
    }
}

} // verus!
