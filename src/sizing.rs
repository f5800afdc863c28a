use vstd::prelude::*;

verus! {

/// How many of the file system's preferred I/O blocks one transfer buffer holds.
pub const BLOCK_SIZE_FACTOR: i64 = 32;

/// The transfer buffer's length: `requested` where it is given, else the file
/// system's preferred block size `reported` times `BLOCK_SIZE_FACTOR`. `None`
/// where that length is not positive, or does not fit in an `i64` or a `usize`.
pub fn transfer_block_size(reported: i64, requested: Option<i64>) -> (r: Option<usize>)
    ensures
        ({
            let want: int = match requested {
                Some(b) => b as int,
                None => reported * BLOCK_SIZE_FACTOR,
            };
            r == if 0 < want <= i64::MAX && want <= usize::MAX { Some(want as usize) } else { None::<usize> }
        }),
{
    let want: Option<i64> = match requested {
        Some(b) => Some(b),
        None => reported.checked_mul(BLOCK_SIZE_FACTOR),
    };
    match want {
        Some(w) => {
            if w > 0 && w as u64 <= usize::MAX as u64 {
                Some(w as usize)
            } else {
                None
            }
        },
        None => {
            None
        },
    }
}

} // verus!
