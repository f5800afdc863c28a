use vstd::prelude::*;
use crate::engine::{CopyIoUring, CopyLibc, TurboCopy};
use crate::memory::read_sizes;

verus! {

/// The sum of a sequence of byte counts.
pub open spec fn total_of(s: Seq<nat>) -> nat
    decreases s.len(),
{
    if s.len() == 0 {
        0
    } else {
        s[0] + total_of(s.drop_first())
    }
}

/// Reading a file front to back with requests of `cap` bytes ends with
/// exactly one 0-byte read; every read before it returns between 1 and `cap`
/// bytes, and together they return the whole file.
pub proof fn lemma_reads_cover_source(len: nat, cap: nat)
    requires
        cap > 0,
    ensures
        read_sizes(len, cap).len() >= 1,
        read_sizes(len, cap).last() == 0,
        forall|i: int| 0 <= i < read_sizes(len, cap).len() - 1 ==> 0 < #[trigger] read_sizes(len, cap)[i] <= cap,
        total_of(read_sizes(len, cap)) == len,
    decreases len,
{
    if len > 0 {
        let k = if cap < len { cap } else { len };
        let rest = read_sizes((len - k) as nat, cap);
        lemma_reads_cover_source((len - k) as nat, cap);
        let all = read_sizes(len, cap);
        assert(all == seq![k] + rest);
        assert(all.drop_first() =~= rest);
        assert(total_of(all) == k + total_of(rest));
        assert forall|i: int| 0 <= i < all.len() - 1 implies 0 < #[trigger] all[i] <= cap by {
            if i > 0 {
                assert(all[i] == rest[i - 1]);
            }
        }
    } else {
        assert(read_sizes(0, cap).drop_first() =~= Seq::<nat>::empty());
        assert(total_of(Seq::<nat>::empty()) == 0);
        assert(total_of(read_sizes(0, cap)) == 0);
    }
}

/// An empty source is copied by a single read, which returns 0 bytes.
pub proof fn lemma_empty_source_reads_once(cap: nat)
    ensures
        read_sizes(0, cap) == seq![0nat],
{
}

/// With a buffer that a ring instruction can fill, both engines issue the
/// same reads, of the same sizes, on every source.
pub proof fn lemma_engines_issue_same_reads(len: nat, block_size: nat)
    requires
        0 < block_size <= u32::MAX,
    ensures
        read_sizes(len, CopyLibc::request_limit(block_size))
            == read_sizes(len, CopyIoUring::request_limit(block_size)),
{
}

} // verus!
