use vstd::prelude::*;
use crate::copy::{copied_into, copy_prefix, min_len};
use crate::error::IoError;
use crate::io::{TryRead, TryWrite};

verus! {

/// The driver session a queue moves its packets through.
///
/// Which packet arrives, and when, is up to the driver. A session may
/// describe its answers through `may_poll`, `may_receive` and `holds_bytes`;
/// one that does not admits every answer.
pub trait PacketSession {
    /// A packet received from the driver.
    type Packet;

    /// Holds when `answer` may be what a non-blocking poll of this session
    /// gives.
    open spec fn may_poll(&self, answer: Result<Option<Self::Packet>, ()>) -> bool {
        true
    }

    /// Holds when `answer` may be what a blocking receive on this session
    /// gives.
    open spec fn may_receive(&self, answer: Result<Self::Packet, ()>) -> bool {
        true
    }

    /// Holds when `bytes` may be the bytes that `packet` holds.
    open spec fn holds_bytes(packet: Self::Packet, bytes: Seq<u8>) -> bool {
        true
    }

    /// Takes the next received packet without blocking: `Ok(None)` when
    /// none is waiting, `Err(())` when the driver failed.
    fn try_receive(&self) -> (r: Result<Option<Self::Packet>, ()>)
        ensures
            self.may_poll(r),
    ;

    /// Waits for the next received packet: `Err(())` when the driver failed
    /// or the session was shut down.
    fn receive_blocking(&self) -> (r: Result<Self::Packet, ()>)
        ensures
            self.may_receive(r),
    ;

    /// The bytes of a received packet.
    fn packet_bytes(packet: &Self::Packet) -> (r: &[u8])
        ensures
            Self::holds_bytes(*packet, r@),
    ;

    /// Holds once `packet` has been handed to this session to send. A
    /// session that does not describe its sends admits every packet.
    open spec fn handed(&self, packet: Seq<u8>) -> bool {
        true
    }

    /// Hands `packet` (shorter than 2^16 bytes) to the driver to send.
    fn send(&self, packet: &[u8])
        ensures
            self.handed(packet@),
    ;
}

/// Holds when a non-blocking poll of `session` may give `received`, seen as
/// bytes: a failure, no packet, or a packet holding those bytes.
pub open spec fn polled<S: PacketSession>(session: S, received: Result<Option<Seq<u8>>, ()>) -> bool {
    match received {
        Err(()) => exists|a: Result<Option<S::Packet>, ()>| a is Err && #[trigger] session.may_poll(a),
        Ok(None) => session.may_poll(Ok(None)),
        Ok(Some(bytes)) => exists|p: S::Packet| session.may_poll(Ok(Some(p))) && #[trigger] S::holds_bytes(p, bytes),
    }
}

/// Holds when `n` may be what one blocking read of `session` reports: the
/// length of a packet a blocking receive may give, or 0 for a failed one.
pub open spec fn received_len<S: PacketSession>(session: S, n: usize) -> bool {
    ||| n == 0 && exists|a: Result<S::Packet, ()>| a is Err && #[trigger] session.may_receive(a)
    ||| exists|p: S::Packet, bytes: Seq<u8>|
        session.may_receive(Ok(p)) && #[trigger] S::holds_bytes(p, bytes) && n == bytes.len()
}

/// The packet a write of `data` hands to the session: its front
/// `send_size(data.len())` bytes.
pub open spec fn sent_packet(data: Seq<u8>) -> Seq<u8> {
    data.take((data.len() % 0x10000) as int)
}

/// The packet a write sends is a front part of the buffer, of the buffer's
/// length modulo 2^16; a buffer shorter than 2^16 bytes is sent whole.
pub proof fn lemma_sent_packet(data: Seq<u8>)
    ensures
        sent_packet(data).len() == data.len() % 0x10000,
        forall|i: int| 0 <= i < sent_packet(data).len() ==> #[trigger] sent_packet(data)[i] == data[i],
        data.len() < 0x10000 ==> sent_packet(data) == data,
{
    if data.len() < 0x10000 {
        assert(sent_packet(data) =~= data);
    }
}

/// The lengths of the buffers of a vectored write.
pub open spec fn buf_lens(bufs: Seq<&[u8]>) -> Seq<usize> {
    Seq::new(bufs.len(), |i: int| bufs[i]@.len() as usize)
}

/// What a non-blocking read into a buffer holding `buf` leaves there
/// (`filled`) and returns (`r`), once the session answered `received`:
/// a failure leaves the buffer as it was and reports `Other`; no packet
/// leaves it as it was and reports 0; a packet is copied to the front of the
/// buffer as far as it fits, and its whole length is reported.
pub open spec fn try_read_outcome(
    received: Result<Option<Seq<u8>>, ()>,
    buf: Seq<u8>,
    filled: Seq<u8>,
    r: Result<usize, IoError>,
) -> bool {
    match received {
        Err(()) => r == Err::<usize, IoError>(IoError::Other) && filled == buf,
        Ok(None) => r == Ok::<usize, IoError>(0) && filled == buf,
        Ok(Some(packet)) => packet.len() <= usize::MAX && r == Ok::<usize, IoError>(packet.len() as usize)
            && filled == copied_into(buf, packet),
    }
}

/// The packet queue of a wintun adapter: the session whose ring buffers
/// carry its packets.
#[derive(Debug)]
pub struct Queue<S> {
    session: S,
}

impl<S> Queue<S> {
    /// The session this queue reads and writes through.
    pub closed spec fn session_view(self) -> S {
        self.session
    }

    /// A queue over `session`.
    pub fn new(session: S) -> (r: Queue<S>)
        ensures
            r.session_view() == session,
    {
        Queue { session }
    }

    /// The session this queue reads and writes through.
    pub fn session(&self) -> (r: &S)
        ensures
            *r == self.session_view(),
    {
        &self.session
    }

    /// A wintun queue hands out bare IP packets, with no packet-information
    /// header in front.
    pub fn has_packet_information(&mut self) -> (r: bool)
        ensures
            !r,
            *final(self) == *old(self),
    {
        false
    }

    /// Nothing is buffered on the way to the driver, so a flush has nothing
    /// to do.
    pub fn flush(&mut self) -> (r: Result<(), IoError>)
        ensures
            r == Ok::<(), IoError>(()),
            *final(self) == *old(self),
    {
        Ok(())
    }

    /// A wintun queue can always be read without blocking, so there is
    /// nothing to switch.
    pub fn set_nonblock(&self) -> (r: Result<(), IoError>)
        ensures
            r == Ok::<(), IoError>(()),
    {
        Ok(())
    }
}

impl<S: PacketSession> Queue<S> {
    /// Waits for a packet and reports its length, or 0 when the session
    /// failed or was shut down. The packet's bytes are not copied into
    /// `buf`, and the read never fails.
    pub fn read(&mut self, buf: &mut [u8]) -> (r: Result<usize, IoError>)
        ensures
            r matches Ok(n) && received_len(old(self).session_view(), n),
            final(buf)@ == old(buf)@,
            *final(self) == *old(self),
    {
        let answer = self.session.receive_blocking();
        let received = match &answer {
            Ok(packet) => {
                let bytes = S::packet_bytes(packet);
                assert(S::holds_bytes(*packet, bytes@));
                assert(bytes@.len() == bytes.len());
                assert(received_len(self.session, bytes.len()));
                Ok(bytes.len())
            },
            Err(_) => {
                assert(answer is Err && self.session.may_receive(answer));
                assert(received_len(self.session, 0));
                Err(())
            },
        };
        finish_read(received)
    }

    /// Sends `buf` as one packet of `send_size(buf.len())` bytes, the front
    /// of `buf`, and reports the whole of `buf` as written.
    pub fn write(&mut self, buf: &[u8]) -> (r: Result<usize, IoError>)
        ensures
            r == Ok::<usize, IoError>(buf@.len() as usize),
            old(self).session_view().handed(sent_packet(buf@)),
            buf@.len() < 0x10000 ==> old(self).session_view().handed(buf@),
            *final(self) == *old(self),
    {
        proof {
            lemma_sent_packet(buf@);
        }
        let size = send_size(buf.len());
        let mut packet: Vec<u8> = vec![0u8; size as usize];
        let written = finish_write(buf, packet.as_mut_slice());
        self.session.send(packet.as_slice());
        written
    }

    /// Sends each of `bufs` as one packet, in order, and reports the sum of
    /// their lengths; `None` where that sum does not fit a `usize`, in which
    /// case the buffers after the one that overflowed it are not sent.
    pub fn write_vectored(&mut self, bufs: &[&[u8]]) -> (r: Option<usize>)
        ensures
            *final(self) == *old(self),
            match r {
                Some(t) => t == total(buf_lens(bufs@)) && forall|i: int|
                    0 <= i < bufs@.len() ==> old(self).session_view().handed(sent_packet(#[trigger] bufs@[i]@)),
                None => total(buf_lens(bufs@)) > usize::MAX,
            },
    {
        let ghost lens = buf_lens(bufs@);
        let mut sent: usize = 0;
        let mut i: usize = 0;
        while i < bufs.len()
            invariant
                i <= bufs@.len(),
                lens == buf_lens(bufs@),
                sent == total(lens.take(i as int)),
                *self == *old(self),
                forall|j: int| 0 <= j < i ==> old(self).session_view().handed(sent_packet(#[trigger] bufs@[j]@)),
            decreases bufs@.len() - i,
        {
            let buf = bufs[i];
            let _ = self.write(buf);
            assert(lens.take(i + 1).drop_last() =~= lens.take(i as int));
            assert(lens[i as int] == buf.len());
            match sent.checked_add(buf.len()) {
                Some(s) => {
                    sent = s;
                },
                None => {
                    proof {
                        lemma_total_prefix(lens, i + 1);
                    }
                    return None;
                },
            }
            i = i + 1;
        }
        assert(lens.take(lens.len() as int) =~= lens);
        Some(sent)
    }

    /// Performs `count` blocking reads, one for each buffer of a vectored
    /// read, and reports the sum of the packet lengths; `None` where that
    /// sum does not fit a `usize`, in which case no further reads are made.
    /// As with `read`, the buffers are not filled.
    pub fn read_vectored(&mut self, count: usize) -> (r: Option<usize>)
        ensures
            *final(self) == *old(self),
            count == 0 ==> r == Some(0usize),
            match r {
                Some(t) => exists|ns: Seq<usize>|
                    ns.len() == count && (forall|i: int| 0 <= i < ns.len() ==> received_len(old(self).session_view(), #[trigger] ns[i]))
                        && t == total(ns),
                None => exists|ns: Seq<usize>|
                    ns.len() <= count && (forall|i: int| 0 <= i < ns.len() ==> received_len(old(self).session_view(), #[trigger] ns[i]))
                        && total(ns) > usize::MAX,
            },
    {
        let mut sum: usize = 0;
        let mut i: usize = 0;
        let ghost ns: Seq<usize> = Seq::empty();
        let mut unused: [u8; 0] = [];
        while i < count
            invariant
                i <= count,
                *self == *old(self),
                ns.len() == i,
                forall|j: int| 0 <= j < ns.len() ==> received_len(old(self).session_view(), #[trigger] ns[j]),
                sum == total(ns),
            decreases count - i,
        {
            let n = match self.read(&mut unused) {
                Ok(n) => n,
                Err(_) => 0,
            };
            let ghost next = ns.push(n);
            assert(next.drop_last() =~= ns);
            assert(forall|j: int| 0 <= j < next.len() ==> received_len(old(self).session_view(), #[trigger] next[j])) by {
                assert forall|j: int| 0 <= j < next.len() implies received_len(old(self).session_view(), #[trigger] next[j]) by {
                    if j < ns.len() {
                        assert(next[j] == ns[j]);
                    }
                }
            }
            match sum.checked_add(n) {
                Some(s) => {
                    sum = s;
                },
                None => {
                    assert(total(next) > usize::MAX);
                    return None;
                },
            }
            proof {
                ns = next;
            }
            i = i + 1;
        }
        Some(sum)
    }
}

impl<S: PacketSession> TryRead for Queue<S> {
    /// A read polls the session once and completes as `try_read_outcome`
    /// says for whatever the session answered.
    open spec fn read_outcome(
        before: Self,
        buf: Seq<u8>,
        after: Self,
        filled: Seq<u8>,
        r: Result<usize, IoError>,
    ) -> bool {
        &&& after == before
        &&& exists|received: Result<Option<Seq<u8>>, ()>|
            polled(before.session_view(), received) && #[trigger] try_read_outcome(received, buf, filled, r)
    }

    fn try_read(&mut self, buf: &mut [u8]) -> (r: Result<usize, IoError>) {
        let answer = self.session.try_receive();
        match answer {
            Ok(Some(packet)) => {
                let bytes = S::packet_bytes(&packet);
                let r = finish_try_read(Ok(Some(bytes)), buf);
                assert(bytes@.len() <= usize::MAX) by {
                    assert(bytes@.len() == bytes.len());
                }
                assert(try_read_outcome(Ok(Some(bytes@)), old(buf)@, buf@, r));
                assert(polled(self.session, Ok(Some(bytes@))));
                r
            },
            Ok(None) => {
                let r = finish_try_read(Ok(None), buf);
                assert(try_read_outcome(Ok(None), old(buf)@, buf@, r));
                assert(polled(self.session, Ok(None)));
                r
            },
            Err(()) => {
                let r = finish_try_read(Err(()), buf);
                assert(answer is Err && self.session.may_poll(answer));
                assert(try_read_outcome(Err(()), old(buf)@, buf@, r));
                assert(polled(self.session, Err(())));
                r
            },
        }
    }
}

impl<S: PacketSession> TryWrite for Queue<S> {
    /// A write hands the front of `data` to the session as one packet and
    /// reports the whole of `data` as written.
    open spec fn write_outcome(before: Self, data: Seq<u8>, after: Self, r: Result<usize, IoError>) -> bool {
        &&& after == before
        &&& r == Ok::<usize, IoError>(data.len() as usize)
        &&& before.session_view().handed(sent_packet(data))
    }

    fn try_write(&mut self, buf: &[u8]) -> (r: Result<usize, IoError>) {
        self.write(buf)
    }
}

/// Completes a non-blocking read once the session has been polled:
/// `received` is `Err(())` when the driver failed, `Ok(None)` when no packet
/// was waiting, and `Ok(Some(packet))` otherwise.
///
/// A packet is copied to the front of `buf` as far as it fits, and the
/// packet's whole length is reported, even where `buf` was too short for it.
pub fn finish_try_read(received: Result<Option<&[u8]>, ()>, buf: &mut [u8]) -> (r: Result<usize, IoError>)
    ensures
        match received {
            Err(()) => r == Err::<usize, IoError>(IoError::Other) && final(buf)@ == old(buf)@,
            Ok(None) => r == Ok::<usize, IoError>(0) && final(buf)@ == old(buf)@,
            Ok(Some(packet)) => r == Ok::<usize, IoError>(packet@.len() as usize) && final(buf)@
                == copied_into(old(buf)@, packet@),
        },
{
    match received {
        Err(()) => Err(IoError::Other),
        Ok(None) => Ok(0),
        Ok(Some(packet)) => {
            copy_prefix(buf, packet);
            Ok(packet.len())
        },
    }
}

/// Completes a blocking read once the session has answered: `received` is
/// the length of the packet that arrived, or `Err(())` when the session
/// failed or was shut down. The packet's bytes are not handed out; only its
/// length is reported, and a failure reads as an empty packet.
pub fn finish_read(received: Result<usize, ()>) -> (r: Result<usize, IoError>)
    ensures
        r == Ok::<usize, IoError>(
            match received {
                Ok(n) => n,
                Err(()) => 0,
            },
        ),
{
    match received {
        Ok(n) => Ok(n),
        Err(()) => Ok(0),
    }
}

/// The size of the send packet allocated for a buffer of `len` bytes: the
/// length taken modulo 2^16, as the driver counts packet sizes in 16 bits.
pub fn send_size(len: usize) -> (r: u16)
    ensures
        r == len % 0x10000,
{
    let r: u16 = #[verifier::truncate] (len as u16);
    assert(r == len % 0x10000) by (bit_vector)
        requires
            r == #[verifier::truncate] (len as u16),
    ;
    r
}

/// Completes a write once a send packet of `send_size(buf.len())` bytes has
/// been allocated: fills the packet from the front of `buf` and reports the
/// whole of `buf` as written.
pub fn finish_write(buf: &[u8], packet: &mut [u8]) -> (r: Result<usize, IoError>)
    requires
        old(packet)@.len() == buf@.len() % 0x10000,
    ensures
        final(packet)@ == buf@.take(old(packet)@.len() as int),
        r == Ok::<usize, IoError>(buf@.len() as usize),
{
    copy_prefix(packet, buf);
    assert(packet@ =~= buf@.take(old(packet)@.len() as int));
    Ok(buf.len())
}

/// A buffer shorter than 2^16 bytes goes out whole: the send packet has
/// its size and the same bytes.
pub proof fn lemma_short_write_whole(buf: Seq<u8>)
    requires
        buf.len() < 0x10000,
    ensures
        buf.len() % 0x10000 == buf.len(),
        buf.take((buf.len() % 0x10000) as int) == buf,
{
    assert(buf.take(buf.len() as int) =~= buf);
}

/// The sum of `lens`.
pub open spec fn total(lens: Seq<usize>) -> int
    decreases lens.len(),
{
    if lens.len() == 0 {
        0
    } else {
        total(lens.drop_last()) + lens.last()
    }
}

/// The sum of a prefix is at most the sum of the whole.
pub proof fn lemma_total_prefix(lens: Seq<usize>, k: int)
    requires
        0 <= k <= lens.len(),
    ensures
        0 <= total(lens.take(k)) <= total(lens),
    decreases lens.len(),
{
    if lens.len() > 0 {
        if k == lens.len() {
            assert(lens.take(k) =~= lens);
            lemma_total_prefix(lens.drop_last(), k - 1);
            assert(lens.drop_last().take(k - 1) =~= lens.drop_last());
        } else {
            lemma_total_prefix(lens.drop_last(), k);
            assert(lens.drop_last().take(k) =~= lens.take(k));
        }
    }
}

} // verus!
