use vstd::prelude::*;

verus! {

/// What one read or write instruction reported: a byte count, or an error code.
#[derive(Clone, Copy, Debug, PartialEq, Eq, Structural)]
pub enum IoOutcome {
    Transferred(usize),
    Failed(i32),
}

impl IoOutcome {
    /// Interprets a raw signed completion result: a non-negative value is a
    /// byte count, a negative one an error code.
    pub fn from_raw(raw: i32) -> (r: IoOutcome)
        ensures
            raw >= 0 ==> r == IoOutcome::Transferred(raw as usize),
            raw < 0 ==> r == IoOutcome::Failed(raw),
    {
        if raw >= 0 {
            IoOutcome::Transferred(raw as usize)
        } else {
            IoOutcome::Failed(raw)
        }
    }
}

/// Why a copy stopped before reaching the end of the source.
#[derive(Clone, Copy, Debug, PartialEq, Eq, Structural)]
pub enum CopyError {
    /// A read or write at `offset` reported the error `code`.
    Io { offset: u64, code: i32 },
    /// An instruction at `offset` claimed to move `len` bytes, more than it was given.
    Overlong { offset: u64, len: usize },
    /// A write at `offset` moved no bytes.
    Stalled { offset: u64 },
    /// The bytes read at `offset` would carry the cursor past the largest offset.
    OffsetOverflow { offset: u64 },
}

/// The next thing the engine asks of the operating system.
#[derive(Clone, Copy, Debug, PartialEq, Eq, Structural)]
pub enum Request {
    /// Read up to `len` bytes of the source at `offset` into the start of the buffer.
    Read { offset: u64, len: usize },
    /// Write the buffer's bytes `start .. start + len` to the destination at `offset`.
    Write { offset: u64, start: usize, len: usize },
    /// The source is exhausted; `total` bytes were copied.
    Finish { total: u64 },
    /// The copy failed and must not go on.
    Abort(CopyError),
}

/// Where the read/write protocol stands.
#[derive(Clone, Copy, Debug, PartialEq, Eq, Structural)]
pub enum Phase {
    /// The next instruction is a read at the cursor's offset.
    Reading,
    /// `filled` bytes were read at the offset; the first `flushed` of them are written.
    Writing { filled: usize, flushed: usize },
    /// A read reported end of file.
    Finished,
    /// The copy stopped on an error.
    Failed(CopyError),
}

/// The transfer cursor: one offset into both files, advanced by each read
/// once all of its bytes are written, and the phase of the current iteration.
#[derive(Clone, Copy, Debug)]
pub struct CopyCursor {
    block_size: usize,
    cap: usize,
    offset: u64,
    phase: Phase,
}

impl CopyCursor {
    /// The length of the transfer buffer.
    pub closed spec fn block_size(self) -> nat {
        self.block_size as nat
    }

    /// The most bytes that one instruction may ask for.
    pub closed spec fn cap(self) -> nat {
        self.cap as nat
    }

    /// Bytes read and fully written so far.
    pub closed spec fn offset(self) -> nat {
        self.offset as nat
    }

    /// Where the protocol stands.
    pub closed spec fn phase(self) -> Phase {
        self.phase
    }

    /// The buffer holds at least one request; a read being written back is
    /// no larger than a request, is not yet fully written, and ends at an
    /// offset that fits in 64 bits.
    pub open spec fn wf(self) -> bool {
        &&& 0 < self.cap() <= self.block_size() <= usize::MAX
        &&& self.offset() <= u64::MAX
        &&& match self.phase() {
            Phase::Writing { filled, flushed } => {
                &&& 0 < filled <= self.cap()
                &&& flushed < filled
                &&& self.offset() + filled <= u64::MAX
            },
            _ => true,
        }
    }

    /// Whether more instructions are owed.
    pub open spec fn is_active(self) -> bool {
        self.phase() is Reading || self.phase() is Writing
    }

    /// The phase after an instruction of the current phase reported `outcome`.
    pub open spec fn phase_after(self, outcome: IoOutcome) -> Phase {
        let offset = self.offset();
        match self.phase() {
            Phase::Reading => match outcome {
                IoOutcome::Transferred(n) => if n == 0 {
                    Phase::Finished
                } else if n > self.cap() {
                    Phase::Failed(CopyError::Overlong { offset: offset as u64, len: n })
                } else if offset + n > u64::MAX {
                    Phase::Failed(CopyError::OffsetOverflow { offset: offset as u64 })
                } else {
                    Phase::Writing { filled: n, flushed: 0 }
                },
                IoOutcome::Failed(code) => Phase::Failed(CopyError::Io { offset: offset as u64, code }),
            },
            Phase::Writing { filled, flushed } => {
                let at = (offset + flushed) as u64;
                match outcome {
                    IoOutcome::Transferred(m) => if m == 0 {
                        Phase::Failed(CopyError::Stalled { offset: at })
                    } else if m > filled - flushed {
                        Phase::Failed(CopyError::Overlong { offset: at, len: m })
                    } else if m == filled - flushed {
                        Phase::Reading
                    } else {
                        Phase::Writing { filled, flushed: (flushed + m) as usize }
                    },
                    IoOutcome::Failed(code) => Phase::Failed(CopyError::Io { offset: at, code }),
                }
            },
            _ => self.phase(),
        }
    }

    /// The offset after an instruction of the current phase reported
    /// `outcome`: it moves only when the last bytes of a read are written.
    pub open spec fn offset_after(self, outcome: IoOutcome) -> nat {
        match (self.phase(), outcome) {
            (Phase::Writing { filled, flushed }, IoOutcome::Transferred(m)) =>
                if m == filled - flushed { self.offset() + filled as nat } else { self.offset() },
            _ => self.offset(),
        }
    }

    /// A cursor at offset 0 for a buffer of `block_size` bytes, whose
    /// instructions ask for at most `cap` bytes each.
    pub fn new(block_size: usize, cap: usize) -> (r: CopyCursor)
        requires
            0 < cap <= block_size,
        ensures
            r.wf(),
            r.block_size() == block_size,
            r.cap() == cap,
            r.offset() == 0,
            r.phase() == Phase::Reading,
    {
        CopyCursor { block_size, cap, offset: 0, phase: Phase::Reading }
    }

    pub fn block_size_of(&self) -> (r: usize)
        ensures
            r == self.block_size(),
    {
        self.block_size
    }

    pub fn offset_of(&self) -> (r: u64)
        ensures
            r == self.offset(),
    {
        self.offset
    }

    pub fn phase_of(&self) -> (r: Phase)
        ensures
            r == self.phase(),
    {
        self.phase
    }

    /// Whether more instructions are owed: false once the copy finished or failed.
    pub fn is_running(&self) -> (r: bool)
        ensures
            r == self.is_active(),
    {
        match self.phase {
            Phase::Reading | Phase::Writing { .. } => true,
            _ => false,
        }
    }

    /// The instruction that the current phase asks for.
    pub fn request(&self) -> (r: Request)
        requires
            self.wf(),
        ensures
            r == match self.phase() {
                Phase::Reading => Request::Read { offset: self.offset() as u64, len: self.cap() as usize },
                Phase::Writing { filled, flushed } => Request::Write {
                    offset: (self.offset() + flushed) as u64,
                    start: flushed,
                    len: (filled - flushed) as usize,
                },
                Phase::Finished => Request::Finish { total: self.offset() as u64 },
                Phase::Failed(e) => Request::Abort(e),
            },
    {
        match self.phase {
            Phase::Reading => Request::Read { offset: self.offset, len: self.cap },
            Phase::Writing { filled, flushed } => Request::Write {
                offset: self.offset + flushed as u64,
                start: flushed,
                len: filled - flushed,
            },
            Phase::Finished => Request::Finish { total: self.offset },
            Phase::Failed(e) => Request::Abort(e),
        }
    }

    /// Takes in what the instruction of `request` reported and moves to the
    /// next phase. A read of 0 bytes ends the copy; a read of `n` bytes is
    /// written back whole, in as many writes as it takes, before the offset
    /// advances by `n`. Errors, and counts larger than asked for, stop the copy.
    pub fn complete(&mut self, outcome: IoOutcome)
        requires
            old(self).wf(),
            old(self).is_active(),
        ensures
            final(self).wf(),
            final(self).block_size() == old(self).block_size(),
            final(self).cap() == old(self).cap(),
            final(self).phase() == old(self).phase_after(outcome),
            final(self).offset() == old(self).offset_after(outcome),
    {
        match self.phase {
            Phase::Reading => {
                let at = self.offset;
                match outcome {
                    IoOutcome::Transferred(n) => {
                        if n == 0 {
                            self.phase = Phase::Finished;
                        } else if n > self.cap {
                            self.phase = Phase::Failed(CopyError::Overlong { offset: at, len: n });
                        } else if n as u64 > u64::MAX - at {
                            self.phase = Phase::Failed(CopyError::OffsetOverflow { offset: at });
                        } else {
                            self.phase = Phase::Writing { filled: n, flushed: 0 };
                        }
                    },
                    IoOutcome::Failed(code) => {
                        self.phase = Phase::Failed(CopyError::Io { offset: at, code });
                    },
                }
            },
            Phase::Writing { filled, flushed } => {
                let at = self.offset + flushed as u64;
                match outcome {
                    IoOutcome::Transferred(m) => {
                        if m == 0 {
                            self.phase = Phase::Failed(CopyError::Stalled { offset: at });
                        } else if m > filled - flushed {
                            self.phase = Phase::Failed(CopyError::Overlong { offset: at, len: m });
                        } else if m == filled - flushed {
                            self.offset = self.offset + filled as u64;
                            self.phase = Phase::Reading;
                        } else {
                            self.phase = Phase::Writing { filled, flushed: flushed + m };
                        }
                    },
                    IoOutcome::Failed(code) => {
                        self.phase = Phase::Failed(CopyError::Io { offset: at, code });
                    },
                }
            },
            _ => {},
        }
    }
}

} // verus!
