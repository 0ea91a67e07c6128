use vstd::prelude::*;
use crate::error::IoError;

verus! {

/// A source of packets that can be read from without blocking.
pub trait TryRead: Sized {
    /// Holds when a read by `before` into a buffer holding `buf` may leave
    /// the reader as `after`, the buffer holding `filled`, and return `r`.
    /// A reader that does not describe its reads admits every outcome.
    open spec fn read_outcome(
        before: Self,
        buf: Seq<u8>,
        after: Self,
        filled: Seq<u8>,
        r: Result<usize, IoError>,
    ) -> bool {
        true
    }

    /// Reads one packet into `buf` if one is waiting.
    fn try_read(&mut self, buf: &mut [u8]) -> (r: Result<usize, IoError>)
        ensures
            Self::read_outcome(*old(self), old(buf)@, *final(self), final(buf)@, r),
    ;
}

/// A sink of packets that can be written to without blocking.
pub trait TryWrite: Sized {
    /// Holds when a write of `data` by `before` may leave the writer as
    /// `after` and return `r`. A writer that does not describe its writes
    /// admits every outcome.
    open spec fn write_outcome(before: Self, data: Seq<u8>, after: Self, r: Result<usize, IoError>) -> bool {
        true
    }

    /// Writes `buf` as one packet.
    fn try_write(&mut self, buf: &[u8]) -> (r: Result<usize, IoError>)
        ensures
            Self::write_outcome(*old(self), buf@, *final(self), r),
    ;
}

} // verus!
