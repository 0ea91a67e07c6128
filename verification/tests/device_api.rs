use tun::address::Ipv4Addr;
use tun::async_device::{AsyncDevice, AsyncDevice2, AsyncQueue, AsyncQueue2};
use tun::async_fd::AsyncFd;
use tun::codec::TunPacketCodec;
use tun::configuration::Configuration;
use tun::device::Device;
use tun::error::{Error, IoError};
use tun::io::{TryRead, TryWrite};

/// A queue that hands out one stored packet and records what is written.
#[derive(Debug, PartialEq)]
struct Loopback {
    waiting: Vec<u8>,
    sent: Vec<Vec<u8>>,
}

impl TryRead for Loopback {
    fn try_read(&mut self, buf: &mut [u8]) -> Result<usize, IoError> {
        let n = self.waiting.len().min(buf.len());
        buf[..n].copy_from_slice(&self.waiting[..n]);
        Ok(self.waiting.len())
    }
}

impl TryWrite for Loopback {
    fn try_write(&mut self, buf: &[u8]) -> Result<usize, IoError> {
        self.sent.push(buf.to_vec());
        Ok(buf.len())
    }
}

fn loopback() -> Loopback {
    Loopback { waiting: vec![0x45, 0, 0, 20], sent: Vec::new() }
}

fn device() -> Device<Loopback> {
    Device::new(&Configuration::default(), loopback()).unwrap()
}

#[test]
fn new_device_takes_default_name() {
    assert_eq!(device().name(), "wintun");
}

#[test]
fn new_device_takes_configured_name() {
    let mut config = Configuration::default();
    config.name = Some("tun3".to_string());
    config.mtu = Some(1400);
    config.enabled = Some(true);
    config.address = Some(Ipv4Addr::new(10, 1, 1, 1));
    let d = Device::new(&config, loopback()).unwrap();
    assert_eq!(d.name(), "tun3");
}

#[test]
fn getters_are_not_implemented() {
    let d = device();
    assert_eq!(d.address(), Err(Error::NotImplemented));
    assert_eq!(d.destination(), Err(Error::NotImplemented));
    assert_eq!(d.broadcast(), Err(Error::NotImplemented));
    assert_eq!(d.netmask(), Err(Error::NotImplemented));
    assert_eq!(d.mtu(), Ok(1504));
}

#[test]
fn setters_succeed_and_change_nothing() {
    let mut d = device();
    let ip = Ipv4Addr::new(1, 1, 1, 1);
    assert_eq!(d.set_address(ip), Ok(()));
    assert_eq!(d.set_destination(ip), Ok(()));
    assert_eq!(d.set_broadcast(ip), Ok(()));
    assert_eq!(d.set_netmask(ip), Ok(()));
    assert_eq!(d.set_mtu(9000), Ok(()));
    assert_eq!(d.enabled(false), Ok(()));
    assert_eq!(d.set_name("other"), Err(Error::NotImplemented));
    assert_eq!(d.name(), "wintun");
    assert_eq!(d.mtu(), Ok(1504));
    assert!(!d.has_packet_information());
    assert_eq!(d.set_nonblock(), Ok(()));
}

#[test]
fn configure_always_succeeds() {
    let mut d = device();
    let mut config = Configuration::default();
    config.broadcast = Some(Ipv4Addr::new(10, 0, 0, 255));
    config.netmask = Some(Ipv4Addr::new(255, 0, 0, 0));
    assert_eq!(d.configure(&config), Ok(()));
    assert_eq!(d.name(), "wintun");
}

#[test]
fn queue_is_the_one_queue_for_any_index() {
    let mut d = device();
    d.queue(5).unwrap().waiting = vec![1, 2];
    let mut buf = [0u8; 4];
    assert_eq!(d.try_read(&mut buf), Ok(2));
    assert_eq!(buf, [1, 2, 0, 0]);
}

#[test]
fn async_fd_passes_reads_and_writes_through() {
    let mut fd = AsyncFd::new(loopback()).unwrap();
    let mut buf = [0u8; 8];
    assert_eq!(fd.try_read(&mut buf), Ok(4));
    assert_eq!(&buf[..4], &[0x45, 0, 0, 20]);
    assert_eq!(fd.try_write(&[9, 9]), Ok(2));
    assert_eq!(fd.get_ref().sent, vec![vec![9, 9]]);
    fd.get_mut().sent.clear();
    assert!(fd.get_ref().sent.is_empty());
}

#[test]
fn async_device_codecs() {
    let d = AsyncDevice::new(device()).unwrap();
    assert_eq!(d.codec(), TunPacketCodec::new(false, 1504));
    let d2 = AsyncDevice2::new(device()).unwrap();
    assert_eq!(d2.codec(), TunPacketCodec { packet_information: false, mtu: 1504 });
    let q = AsyncQueue::new(loopback()).unwrap();
    assert_eq!(q.codec(), TunPacketCodec::new(false, 1504));
    let q2 = AsyncQueue2::new(loopback()).unwrap();
    assert_eq!(q2.codec(), TunPacketCodec::new(false, 1504));
}

#[test]
fn async_polls_complete_at_once() {
    let mut d = AsyncDevice::new(device()).unwrap();
    let mut buf = [0u8; 2];
    assert_eq!(d.poll_read(&mut buf), Ok(4));
    assert_eq!(buf, [0x45, 0]);
    assert_eq!(d.poll_write(&[1, 2, 3]), Ok(3));
    assert_eq!(d.poll_flush(), Ok(()));
    assert_eq!(d.poll_shutdown(), Ok(()));
    assert_eq!(d.get_mut().queue(0).unwrap().sent, vec![vec![1, 2, 3]]);

    let mut q2 = AsyncQueue2::new(loopback()).unwrap();
    assert_eq!(q2.poll_write(&[4]), Ok(1));
    assert_eq!(q2.get_ref().sent, vec![vec![4]]);
    let mut d2 = AsyncDevice2::new(device()).unwrap();
    let mut buf = [0u8; 8];
    assert_eq!(d2.poll_read(&mut buf), Ok(4));
    assert_eq!(d2.get_ref().name(), "wintun");
    let mut q = AsyncQueue::new(loopback()).unwrap();
    assert_eq!(q.poll_write(&[]), Ok(0));
    assert_eq!(q.poll_flush(), Ok(()));
    assert_eq!(q.poll_shutdown(), Ok(()));
}
