use vstd::prelude::*;
use crate::async_fd::AsyncFd;
use crate::codec::TunPacketCodec;
use crate::device::{wintun_mtu, Device};
use crate::error::IoError;
use crate::io::{TryRead, TryWrite};

verus! {

/// The MTU assumed for a stream when the device reports none.
pub open spec fn fallback_mtu() -> i32 {
    1504
}

/// The framing of a stream over `device`: bare packets, sized by the
/// device's MTU, or by 1504 where the device cannot tell it.
fn device_codec<Q>(device: &Device<Q>) -> (r: TunPacketCodec)
    ensures
        r == (TunPacketCodec { packet_information: false, mtu: wintun_mtu() }),
{
    let mtu: i32 = match device.mtu() {
        Ok(m) => m,
        Err(_) => 1504,
    };
    TunPacketCodec::new(false, mtu)
}

/// A TUN device made ready for polling.
///
/// Each poll completes at once: a read polls the device's queue without
/// blocking, and a write hands the packet to the queue.
#[derive(Debug)]
pub struct AsyncDevice<Q: TryRead + TryWrite> {
    inner: AsyncFd<Device<Q>>,
}

impl<Q: TryRead + TryWrite> AsyncDevice<Q> {
    /// The device this wrapper holds.
    pub closed spec fn device_view(self) -> Device<Q> {
        self.inner.inner_view()
    }

    /// Wraps `device`; this cannot fail.
    pub fn new(device: Device<Q>) -> (r: Result<AsyncDevice<Q>, IoError>)
        ensures
            r matches Ok(d) && d.device_view() == device,
    {
        let inner = AsyncFd::new(device)?;
        Ok(AsyncDevice { inner })
    }

    /// The device this wrapper holds.
    pub fn get_ref(&self) -> (r: &Device<Q>)
        ensures
            *r == self.device_view(),
    {
        self.inner.get_ref()
    }

    /// The device this wrapper holds, to change in place.
    pub fn get_mut(&mut self) -> (r: &mut Device<Q>)
        ensures
            *r == old(self).device_view(),
            final(self).device_view() == *final(r),
    {
        self.inner.get_mut()
    }

    /// The framing of the packet stream over this device: bare packets,
    /// sized by the device's MTU.
    pub fn codec(&self) -> (r: TunPacketCodec)
        ensures
            r == (TunPacketCodec { packet_information: false, mtu: wintun_mtu() }),
    {
        device_codec(self.get_ref())
    }

    /// The read a poll performs: one packet into the unfilled part of the
    /// caller's buffer; the poll then advances the buffer by the count.
    pub fn poll_read(&mut self, unfilled: &mut [u8]) -> (r: Result<usize, IoError>)
        ensures
            Device::<Q>::read_outcome(old(self).device_view(), old(unfilled)@, final(self).device_view(), final(unfilled)@, r),
    {
        self.inner.try_read(unfilled)
    }

    /// The write a poll performs: `buf` as one packet.
    pub fn poll_write(&mut self, buf: &[u8]) -> (r: Result<usize, IoError>)
        ensures
            Device::<Q>::write_outcome(old(self).device_view(), buf@, final(self).device_view(), r),
    {
        self.inner.try_write(buf)
    }

    /// Nothing is buffered, so a flush completes at once.
    pub fn poll_flush(&mut self) -> (r: Result<(), IoError>)
        ensures
            r == Ok::<(), IoError>(()),
            *final(self) == *old(self),
    {
        Ok(())
    }

    /// Shutting the stream down completes at once.
    pub fn poll_shutdown(&mut self) -> (r: Result<(), IoError>)
        ensures
            r == Ok::<(), IoError>(()),
            *final(self) == *old(self),
    {
        Ok(())
    }
}

/// A TUN queue made ready for polling.
#[derive(Debug)]
pub struct AsyncQueue<Q: TryRead + TryWrite> {
    inner: AsyncFd<Q>,
}

impl<Q: TryRead + TryWrite> AsyncQueue<Q> {
    /// The queue this wrapper holds.
    pub closed spec fn queue_view(self) -> Q {
        self.inner.inner_view()
    }

    /// Wraps `queue`; this cannot fail.
    pub fn new(queue: Q) -> (r: Result<AsyncQueue<Q>, IoError>)
        ensures
            r matches Ok(q) && q.queue_view() == queue,
    {
        let inner = AsyncFd::new(queue)?;
        Ok(AsyncQueue { inner })
    }

    /// The queue this wrapper holds.
    pub fn get_ref(&self) -> (r: &Q)
        ensures
            *r == self.queue_view(),
    {
        self.inner.get_ref()
    }

    /// The queue this wrapper holds, to change in place.
    pub fn get_mut(&mut self) -> (r: &mut Q)
        ensures
            *r == old(self).queue_view(),
            final(self).queue_view() == *final(r),
    {
        self.inner.get_mut()
    }

    /// The framing of the packet stream over this queue: bare packets,
    /// sized by an MTU of 1504.
    pub fn codec(&self) -> (r: TunPacketCodec)
        ensures
            r == (TunPacketCodec { packet_information: false, mtu: fallback_mtu() }),
    {
        TunPacketCodec::new(false, 1504)
    }

    /// The read a poll performs: one packet into the unfilled part of the
    /// caller's buffer; the poll then advances the buffer by the count.
    pub fn poll_read(&mut self, unfilled: &mut [u8]) -> (r: Result<usize, IoError>)
        ensures
            Q::read_outcome(old(self).queue_view(), old(unfilled)@, final(self).queue_view(), final(unfilled)@, r),
    {
        self.inner.try_read(unfilled)
    }

    /// The write a poll performs: `buf` as one packet.
    pub fn poll_write(&mut self, buf: &[u8]) -> (r: Result<usize, IoError>)
        ensures
            Q::write_outcome(old(self).queue_view(), buf@, final(self).queue_view(), r),
    {
        self.inner.try_write(buf)
    }

    /// Nothing is buffered, so a flush completes at once.
    pub fn poll_flush(&mut self) -> (r: Result<(), IoError>)
        ensures
            r == Ok::<(), IoError>(()),
            *final(self) == *old(self),
    {
        Ok(())
    }

    /// Shutting the stream down completes at once.
    pub fn poll_shutdown(&mut self) -> (r: Result<(), IoError>)
        ensures
            r == Ok::<(), IoError>(()),
            *final(self) == *old(self),
    {
        Ok(())
    }
}

/// A TUN device made ready for polling, held directly.
#[derive(Debug)]
pub struct AsyncDevice2<Q> {
    inner: Device<Q>,
}

impl<Q> AsyncDevice2<Q> {
    /// The device this wrapper holds.
    pub closed spec fn device_view(self) -> Device<Q> {
        self.inner
    }

    /// Wraps `device`; this cannot fail.
    pub fn new(device: Device<Q>) -> (r: Result<AsyncDevice2<Q>, IoError>)
        ensures
            r matches Ok(d) && d.device_view() == device,
    {
        Ok(AsyncDevice2 { inner: device })
    }

    /// The device this wrapper holds.
    pub fn get_ref(&self) -> (r: &Device<Q>)
        ensures
            *r == self.device_view(),
    {
        &self.inner
    }

    /// The device this wrapper holds, to change in place.
    pub fn get_mut(&mut self) -> (r: &mut Device<Q>)
        ensures
            *r == old(self).device_view(),
            final(self).device_view() == *final(r),
    {
        &mut self.inner
    }

    /// The framing of the packet stream over this device: bare packets,
    /// sized by the device's MTU.
    pub fn codec(&self) -> (r: TunPacketCodec)
        ensures
            r == (TunPacketCodec { packet_information: false, mtu: wintun_mtu() }),
    {
        device_codec(self.get_ref())
    }

    /// Nothing is buffered, so a flush completes at once.
    pub fn poll_flush(&mut self) -> (r: Result<(), IoError>)
        ensures
            r == Ok::<(), IoError>(()),
            *final(self) == *old(self),
    {
        Ok(())
    }

    /// Shutting the stream down completes at once.
    pub fn poll_shutdown(&mut self) -> (r: Result<(), IoError>)
        ensures
            r == Ok::<(), IoError>(()),
            *final(self) == *old(self),
    {
        Ok(())
    }
}

impl<Q: TryRead + TryWrite> AsyncDevice2<Q> {
    /// The read a poll performs: one packet into the unfilled part of the
    /// caller's buffer; the poll then advances the buffer by the count.
    pub fn poll_read(&mut self, unfilled: &mut [u8]) -> (r: Result<usize, IoError>)
        ensures
            Device::<Q>::read_outcome(old(self).device_view(), old(unfilled)@, final(self).device_view(), final(unfilled)@, r),
    {
        TryRead::try_read(&mut self.inner, unfilled)
    }

    /// The write a poll performs: `buf` as one packet.
    pub fn poll_write(&mut self, buf: &[u8]) -> (r: Result<usize, IoError>)
        ensures
            Device::<Q>::write_outcome(old(self).device_view(), buf@, final(self).device_view(), r),
    {
        TryWrite::try_write(&mut self.inner, buf)
    }
}

/// A TUN queue made ready for polling, held directly.
#[derive(Debug)]
pub struct AsyncQueue2<Q> {
    inner: Q,
}

impl<Q> AsyncQueue2<Q> {
    /// The queue this wrapper holds.
    pub closed spec fn queue_view(self) -> Q {
        self.inner
    }

    /// Wraps `queue`; this cannot fail.
    pub fn new(queue: Q) -> (r: Result<AsyncQueue2<Q>, IoError>)
        ensures
            r matches Ok(q) && q.queue_view() == queue,
    {
        Ok(AsyncQueue2 { inner: queue })
    }

    /// The queue this wrapper holds.
    pub fn get_ref(&self) -> (r: &Q)
        ensures
            *r == self.queue_view(),
    {
        &self.inner
    }

    /// The queue this wrapper holds, to change in place.
    pub fn get_mut(&mut self) -> (r: &mut Q)
        ensures
            *r == old(self).queue_view(),
            final(self).queue_view() == *final(r),
    {
        &mut self.inner
    }

    /// The framing of the packet stream over this queue: bare packets,
    /// sized by an MTU of 1504.
    pub fn codec(&self) -> (r: TunPacketCodec)
        ensures
            r == (TunPacketCodec { packet_information: false, mtu: fallback_mtu() }),
    {
        TunPacketCodec::new(false, 1504)
    }

    /// Nothing is buffered, so a flush completes at once.
    pub fn poll_flush(&mut self) -> (r: Result<(), IoError>)
        ensures
            r == Ok::<(), IoError>(()),
            *final(self) == *old(self),
    {
        Ok(())
    }

    /// Shutting the stream down completes at once.
    pub fn poll_shutdown(&mut self) -> (r: Result<(), IoError>)
        ensures
            r == Ok::<(), IoError>(()),
            *final(self) == *old(self),
    {
        Ok(())
    }
}

impl<Q: TryRead + TryWrite> AsyncQueue2<Q> {
    /// The read a poll performs: one packet into the unfilled part of the
    /// caller's buffer; the poll then advances the buffer by the count.
    pub fn poll_read(&mut self, unfilled: &mut [u8]) -> (r: Result<usize, IoError>)
        ensures
            Q::read_outcome(old(self).queue_view(), old(unfilled)@, final(self).queue_view(), final(unfilled)@, r),
    {
        self.inner.try_read(unfilled)
    }

    /// The write a poll performs: `buf` as one packet.
    pub fn poll_write(&mut self, buf: &[u8]) -> (r: Result<usize, IoError>)
        ensures
            Q::write_outcome(old(self).queue_view(), buf@, final(self).queue_view(), r),
    {
        self.inner.try_write(buf)
    }
}

} // verus!
