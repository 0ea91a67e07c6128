use tun::copy::copy_prefix;
use tun::error::IoError;
use tun::queue::{finish_read, finish_try_read, finish_write, send_size, Queue};

#[test]
fn try_read_copies_whole_packet_into_long_buffer() {
    let packet = [1u8, 2, 3];
    let mut buf = [9u8; 5];
    let r = finish_try_read(Ok(Some(&packet[..])), &mut buf);
    assert_eq!(r, Ok(3));
    assert_eq!(buf, [1, 2, 3, 9, 9]);
}

#[test]
fn try_read_truncates_into_short_buffer_and_reports_packet_length() {
    let packet = [1u8, 2, 3, 4, 5, 6];
    let mut buf = [0u8; 4];
    let r = finish_try_read(Ok(Some(&packet[..])), &mut buf);
    assert_eq!(r, Ok(6));
    assert_eq!(buf, [1, 2, 3, 4]);
}

#[test]
fn try_read_with_nothing_waiting() {
    let mut buf = [7u8; 3];
    assert_eq!(finish_try_read(Ok(None), &mut buf), Ok(0));
    assert_eq!(buf, [7, 7, 7]);
}

#[test]
fn try_read_driver_failure() {
    let mut buf = [7u8; 3];
    assert_eq!(finish_try_read(Err(()), &mut buf), Err(IoError::Other));
    assert_eq!(buf, [7, 7, 7]);
}

#[test]
fn blocking_read_reports_length_or_zero() {
    assert_eq!(finish_read(Ok(1500)), Ok(1500));
    assert_eq!(finish_read(Err(())), Ok(0));
}

#[test]
fn send_size_wraps_at_sixteen_bits() {
    assert_eq!(send_size(20), 20);
    assert_eq!(send_size(65535), 65535);
    assert_eq!(send_size(65536), 0);
    assert_eq!(send_size(70000), 4464);
}

#[test]
fn write_fills_packet_from_front_of_buffer() {
    let buf = [5u8, 6, 7];
    let mut packet = vec![0u8; send_size(buf.len()) as usize];
    assert_eq!(finish_write(&buf, &mut packet), Ok(3));
    assert_eq!(packet, vec![5, 6, 7]);
}

#[test]
fn write_of_oversized_buffer_sends_truncated_packet_but_reports_all() {
    let buf = vec![0xabu8; 65536 + 10];
    let mut packet = vec![0u8; send_size(buf.len()) as usize];
    assert_eq!(packet.len(), 10);
    assert_eq!(finish_write(&buf, &mut packet), Ok(65546));
    assert_eq!(packet, vec![0xab; 10]);
}

#[test]
fn copy_prefix_counts() {
    let mut dst = [0u8; 2];
    assert_eq!(copy_prefix(&mut dst, &[1, 2, 3]), 2);
    assert_eq!(dst, [1, 2]);
    let mut dst = [0u8; 4];
    assert_eq!(copy_prefix(&mut dst, &[1]), 1);
    assert_eq!(dst, [1, 0, 0, 0]);
}

#[test]
fn queue_reports_no_packet_information() {
    let mut q = Queue::new(17u32);
    assert!(!q.has_packet_information());
    assert_eq!(q.set_nonblock(), Ok(()));
    assert_eq!(*q.session(), 17);
}
