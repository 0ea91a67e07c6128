use vstd::prelude::*;

verus! {

/// How packets are framed on a TUN stream: whether each carries a
/// packet-information header, and the MTU that sizes the read buffer.
#[derive(Debug, Clone, Copy, PartialEq, Eq, Structural)]
pub struct TunPacketCodec {
    pub packet_information: bool,
    pub mtu: i32,
}

impl TunPacketCodec {
    /// The framing with header flag `packet_information` and MTU `mtu`.
    pub fn new(packet_information: bool, mtu: i32) -> (r: TunPacketCodec)
        ensures
            r == (TunPacketCodec { packet_information, mtu }),
    {
        TunPacketCodec { packet_information, mtu }
    }
}

} // verus!
