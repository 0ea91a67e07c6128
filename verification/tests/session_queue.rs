use std::cell::RefCell;
use std::collections::VecDeque;

use tun::async_device::AsyncDevice;
use tun::configuration::Configuration;
use tun::device::Device;
use tun::error::IoError;
use tun::io::{TryRead, TryWrite};
use tun::queue::{PacketSession, Queue};

/// A session that hands out queued packets and records what is sent.
struct FakeSession {
    incoming: RefCell<VecDeque<Vec<u8>>>,
    sent: RefCell<Vec<Vec<u8>>>,
    failing: bool,
}

impl FakeSession {
    fn with(packets: Vec<Vec<u8>>) -> FakeSession {
        FakeSession { incoming: RefCell::new(packets.into()), sent: RefCell::new(Vec::new()), failing: false }
    }
}

impl PacketSession for FakeSession {
    type Packet = Vec<u8>;

    fn try_receive(&self) -> Result<Option<Vec<u8>>, ()> {
        if self.failing {
            return Err(());
        }
        Ok(self.incoming.borrow_mut().pop_front())
    }

    fn receive_blocking(&self) -> Result<Vec<u8>, ()> {
        match self.try_receive() {
            Ok(Some(p)) => Ok(p),
            _ => Err(()),
        }
    }

    fn packet_bytes(packet: &Vec<u8>) -> &[u8] {
        packet
    }

    fn send(&self, packet: &[u8]) {
        self.sent.borrow_mut().push(packet.to_vec());
    }
}

#[test]
fn queue_try_read_copies_and_reports_length() {
    let mut q = Queue::new(FakeSession::with(vec![vec![1, 2, 3, 4, 5], vec![6]]));
    let mut buf = [0u8; 3];
    assert_eq!(q.try_read(&mut buf), Ok(5));
    assert_eq!(buf, [1, 2, 3]);
    let mut buf = [9u8; 3];
    assert_eq!(q.try_read(&mut buf), Ok(1));
    assert_eq!(buf, [6, 9, 9]);
    assert_eq!(q.try_read(&mut buf), Ok(0));
    assert_eq!(buf, [6, 9, 9]);
}

#[test]
fn queue_try_read_failure() {
    let mut session = FakeSession::with(vec![vec![1]]);
    session.failing = true;
    let mut q = Queue::new(session);
    let mut buf = [4u8; 2];
    assert_eq!(q.try_read(&mut buf), Err(IoError::Other));
    assert_eq!(buf, [4, 4]);
}

#[test]
fn queue_blocking_read_reports_length_only() {
    let mut q = Queue::new(FakeSession::with(vec![vec![1, 2, 3]]));
    let mut buf = [0u8; 8];
    assert_eq!(q.read(&mut buf), Ok(3));
    assert_eq!(buf, [0u8; 8]);
    assert_eq!(q.read(&mut buf), Ok(0));
}

#[test]
fn queue_write_sends_one_packet() {
    let mut q = Queue::new(FakeSession::with(Vec::new()));
    assert_eq!(q.try_write(&[7, 8, 9]), Ok(3));
    assert_eq!(q.write(&[]), Ok(0));
    assert_eq!(*q.session().sent.borrow(), vec![vec![7, 8, 9], vec![]]);
}

#[test]
fn queue_write_of_oversized_buffer_sends_truncated_packet() {
    let mut q = Queue::new(FakeSession::with(Vec::new()));
    let buf = vec![1u8; 65536 + 3];
    assert_eq!(q.write(&buf), Ok(65539));
    assert_eq!(*q.session().sent.borrow(), vec![vec![1u8; 3]]);
}

#[test]
fn async_device_over_session_queue() {
    let queue = Queue::new(FakeSession::with(vec![vec![0x45, 0, 0, 20]]));
    let device = Device::new(&Configuration::default(), queue).unwrap();
    let mut d = AsyncDevice::new(device).unwrap();
    let mut buf = [0u8; 16];
    assert_eq!(d.poll_read(&mut buf), Ok(4));
    assert_eq!(&buf[..4], &[0x45, 0, 0, 20]);
    assert_eq!(d.poll_write(&[1, 2]), Ok(2));
    assert_eq!(d.get_ref().name(), "wintun");
    assert_eq!(*d.get_mut().queue(0).unwrap().session().sent.borrow(), vec![vec![1, 2]]);
}

#[test]
fn queue_write_vectored_sends_each_buffer() {
    let mut q = Queue::new(FakeSession::with(Vec::new()));
    let a: &[u8] = &[1, 2];
    let b: &[u8] = &[];
    let c: &[u8] = &[3];
    assert_eq!(q.write_vectored(&[a, b, c]), Some(3));
    assert_eq!(*q.session().sent.borrow(), vec![vec![1, 2], vec![], vec![3]]);
    assert_eq!(q.write_vectored(&[]), Some(0));
}

#[test]
fn queue_read_vectored_sums_packet_lengths() {
    let mut q = Queue::new(FakeSession::with(vec![vec![1, 2, 3], vec![4; 10]]));
    assert_eq!(q.read_vectored(0), Some(0));
    assert_eq!(q.read_vectored(3), Some(13));
}
