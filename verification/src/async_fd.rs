use vstd::prelude::*;
use crate::error::IoError;
use crate::io::{TryRead, TryWrite};

verus! {

/// A reader and writer made ready for polling: every read and write is
/// passed to the object it holds.
#[derive(Debug)]
pub struct AsyncFd<T: TryRead + TryWrite> {
    inner: T,
}

impl<T: TryRead + TryWrite> AsyncFd<T> {
    /// The object this wrapper holds.
    pub closed spec fn inner_view(self) -> T {
        self.inner
    }

    /// Wraps `inner`; this cannot fail.
    pub fn new(inner: T) -> (r: Result<AsyncFd<T>, IoError>)
        ensures
            r matches Ok(fd) && fd.inner_view() == inner,
    {
        Ok(AsyncFd { inner })
    }

    /// The object this wrapper holds.
    pub fn get_ref(&self) -> (r: &T)
        ensures
            *r == self.inner_view(),
    {
        &self.inner
    }

    /// The object this wrapper holds, to change in place.
    pub fn get_mut(&mut self) -> (r: &mut T)
        ensures
            *r == old(self).inner_view(),
            final(self).inner_view() == *final(r),
    {
        &mut self.inner
    }

    /// Writes `buf` through the held object.
    pub fn try_write(&mut self, buf: &[u8]) -> (r: Result<usize, IoError>)
        ensures
            T::write_outcome(old(self).inner_view(), buf@, final(self).inner_view(), r),
    {
        self.inner.try_write(buf)
    }

    /// Reads into `buf` through the held object.
    pub fn try_read(&mut self, buf: &mut [u8]) -> (r: Result<usize, IoError>)
        ensures
            T::read_outcome(old(self).inner_view(), old(buf)@, final(self).inner_view(), final(buf)@, r),
    {
        self.inner.try_read(buf)
    }
}

} // verus!
