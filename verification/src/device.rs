use vstd::prelude::*;
use crate::address::Ipv4Addr;
use crate::configuration::Configuration;
use crate::error::{Error, IoError};
use crate::io::{TryRead, TryWrite};
use crate::settings::default_name;

verus! {

/// The MTU a wintun device reports.
pub open spec fn wintun_mtu() -> i32 {
    1504
}

/// The name a device built from `config` carries.
pub open spec fn configured_name(config: Configuration) -> Seq<char> {
    match config.name {
        Some(n) => n@,
        None => default_name(),
    }
}

/// A TUN device backed by a wintun adapter: its name and its one queue.
#[derive(Debug)]
pub struct Device<Q> {
    name: String,
    queue: Q,
}

impl<Q> Device<Q> {
    /// The device's name.
    pub closed spec fn name_view(self) -> Seq<char> {
        self.name@
    }

    /// The device's queue.
    pub closed spec fn queue_view(self) -> Q {
        self.queue
    }

    /// The device for `config` over the adapter queue `queue`, configured as
    /// `config` asks.
    pub fn new(config: &Configuration, queue: Q) -> (r: Result<Device<Q>, Error>)
        ensures
            r matches Ok(d) && d.name_view() == configured_name(*config) && d.queue_view() == queue,
    {
        let name = match &config.name {
            Some(n) => n.clone(),
            None => "wintun".to_owned(),
        };
        let mut device = Device { name, queue };
        let configured = device.configure(config);
        match configured {
            Ok(()) => Ok(device),
            Err(e) => Err(e),
        }
    }

    /// Applies each setting that `config` gives. Every setter of a wintun
    /// device accepts its value, so this succeeds and changes nothing.
    pub fn configure(&mut self, config: &Configuration) -> (r: Result<(), Error>)
        ensures
            r == Ok::<(), Error>(()),
            *final(self) == *old(self),
    {
        if let Some(ip) = config.address {
            self.set_address(ip)?;
        }
        if let Some(ip) = config.destination {
            self.set_destination(ip)?;
        }
        if let Some(ip) = config.broadcast {
            self.set_broadcast(ip)?;
        }
        if let Some(ip) = config.netmask {
            self.set_netmask(ip)?;
        }
        if let Some(mtu) = config.mtu {
            self.set_mtu(mtu)?;
        }
        if let Some(enabled) = config.enabled {
            self.enabled(enabled)?;
        }
        Ok(())
    }

    /// A wintun device hands out bare IP packets.
    pub fn has_packet_information(&mut self) -> (r: bool)
        ensures
            !r,
            *final(self) == *old(self),
    {
        false
    }

    /// Switches the queue to non-blocking reads, which a wintun queue always
    /// allows.
    pub fn set_nonblock(&self) -> (r: Result<(), IoError>)
        ensures
            r == Ok::<(), IoError>(()),
    {
        Ok(())
    }

    /// The device's name.
    pub fn name(&self) -> (r: &str)
        ensures
            r@ == self.name_view(),
    {
        self.name.as_str()
    }

    /// Renaming is not offered.
    pub fn set_name(&mut self, value: &str) -> (r: Result<(), Error>)
        ensures
            r == Err::<(), Error>(Error::NotImplemented),
            *final(self) == *old(self),
    {
        Err(Error::NotImplemented)
    }

    /// Bringing the device up or down is accepted and has no effect.
    pub fn enabled(&mut self, value: bool) -> (r: Result<(), Error>)
        ensures
            r == Ok::<(), Error>(()),
            *final(self) == *old(self),
    {
        Ok(())
    }

    /// The local address cannot be read back.
    pub fn address(&self) -> (r: Result<Ipv4Addr, Error>)
        ensures
            r == Err::<Ipv4Addr, Error>(Error::NotImplemented),
    {
        Err(Error::NotImplemented)
    }

    /// Setting the local address is accepted and has no effect.
    pub fn set_address(&mut self, value: Ipv4Addr) -> (r: Result<(), Error>)
        ensures
            r == Ok::<(), Error>(()),
            *final(self) == *old(self),
    {
        Ok(())
    }

    /// The remote address cannot be read back.
    pub fn destination(&self) -> (r: Result<Ipv4Addr, Error>)
        ensures
            r == Err::<Ipv4Addr, Error>(Error::NotImplemented),
    {
        Err(Error::NotImplemented)
    }

    /// Setting the remote address is accepted and has no effect.
    pub fn set_destination(&mut self, value: Ipv4Addr) -> (r: Result<(), Error>)
        ensures
            r == Ok::<(), Error>(()),
            *final(self) == *old(self),
    {
        Ok(())
    }

    /// The broadcast address cannot be read back.
    pub fn broadcast(&self) -> (r: Result<Ipv4Addr, Error>)
        ensures
            r == Err::<Ipv4Addr, Error>(Error::NotImplemented),
    {
        Err(Error::NotImplemented)
    }

    /// Setting the broadcast address is accepted and has no effect.
    pub fn set_broadcast(&mut self, value: Ipv4Addr) -> (r: Result<(), Error>)
        ensures
            r == Ok::<(), Error>(()),
            *final(self) == *old(self),
    {
        Ok(())
    }

    /// The network mask cannot be read back.
    pub fn netmask(&self) -> (r: Result<Ipv4Addr, Error>)
        ensures
            r == Err::<Ipv4Addr, Error>(Error::NotImplemented),
    {
        Err(Error::NotImplemented)
    }

    /// Setting the network mask is accepted and has no effect.
    pub fn set_netmask(&mut self, value: Ipv4Addr) -> (r: Result<(), Error>)
        ensures
            r == Ok::<(), Error>(()),
            *final(self) == *old(self),
    {
        Ok(())
    }

    /// The MTU of a wintun device: 1504.
    pub fn mtu(&self) -> (r: Result<i32, Error>)
        ensures
            r == Ok::<i32, Error>(wintun_mtu()),
    {
        Ok(1504)
    }

    /// Setting the MTU is accepted and has no effect.
    pub fn set_mtu(&mut self, value: i32) -> (r: Result<(), Error>)
        ensures
            r == Ok::<(), Error>(()),
            *final(self) == *old(self),
    {
        Ok(())
    }

    /// The device's one queue, whatever `index` is asked for.
    pub fn queue(&mut self, index: usize) -> (r: Option<&mut Q>)
        ensures
            r matches Some(q) && *q == old(self).queue_view() && final(self).queue_view() == *final(q)
                && final(self).name_view() == old(self).name_view(),
    {
        Some(&mut self.queue)
    }
}

impl<Q: TryRead> Device<Q> {
    /// Reads one packet from the queue without blocking.
    pub fn try_read(&mut self, buf: &mut [u8]) -> (r: Result<usize, IoError>)
        ensures
            final(self).name_view() == old(self).name_view(),
            Q::read_outcome(old(self).queue_view(), old(buf)@, final(self).queue_view(), final(buf)@, r),
    {
        self.queue.try_read(buf)
    }
}

impl<Q: TryRead> TryRead for Device<Q> {
    /// A read keeps the device's name and reads through its queue.
    open spec fn read_outcome(
        before: Self,
        buf: Seq<u8>,
        after: Self,
        filled: Seq<u8>,
        r: Result<usize, IoError>,
    ) -> bool {
        &&& after.name_view() == before.name_view()
        &&& Q::read_outcome(before.queue_view(), buf, after.queue_view(), filled, r)
    }

    fn try_read(&mut self, buf: &mut [u8]) -> (r: Result<usize, IoError>) {
        self.queue.try_read(buf)
    }
}

impl<Q: TryWrite> TryWrite for Device<Q> {
    /// A write keeps the device's name and writes through its queue.
    open spec fn write_outcome(before: Self, data: Seq<u8>, after: Self, r: Result<usize, IoError>) -> bool {
        &&& after.name_view() == before.name_view()
        &&& Q::write_outcome(before.queue_view(), data, after.queue_view(), r)
    }

    fn try_write(&mut self, buf: &[u8]) -> (r: Result<usize, IoError>) {
        self.queue.try_write(buf)
    }
}

} // verus!
