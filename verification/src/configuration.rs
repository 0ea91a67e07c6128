use vstd::prelude::*;
use crate::address::Ipv4Addr;

verus! {

/// What a caller asks of a new TUN device. Each setting left at `None`
/// keeps the backend's default.
#[derive(Debug)]
pub struct Configuration {
    /// Name of the adapter.
    pub name: Option<String>,
    /// Address of the local end.
    pub address: Option<Ipv4Addr>,
    /// Address of the remote end, used as the gateway.
    pub destination: Option<Ipv4Addr>,
    /// Broadcast address.
    pub broadcast: Option<Ipv4Addr>,
    /// Network mask.
    pub netmask: Option<Ipv4Addr>,
    /// Maximum transmission unit.
    pub mtu: Option<i32>,
    /// Whether the device is brought up.
    pub enabled: Option<bool>,
}

impl Default for Configuration {
    fn default() -> (r: Configuration)
        ensures
            r.name is None,
            r.address is None,
            r.destination is None,
            r.broadcast is None,
            r.netmask is None,
            r.mtu is None,
            r.enabled is None,
    {
        Configuration {
            name: None,
            address: None,
            destination: None,
            broadcast: None,
            netmask: None,
            mtu: None,
            enabled: None,
        }
    }
}

} // verus!
