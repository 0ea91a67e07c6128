use vstd::prelude::*;
use crate::address::{lemma_text_determines_address, Ipv4Addr};
use crate::configuration::Configuration;

verus! {

/// The adapter name used when the configuration names none.
pub open spec fn default_name() -> Seq<char> {
    "wintun"@
}

/// The local address used when the configuration gives none: `10.0.0.2`.
pub open spec fn default_address() -> Ipv4Addr {
    Ipv4Addr { a: 10, b: 0, c: 0, d: 2 }
}

/// The remote address used when the configuration gives none: `10.0.0.1`.
pub open spec fn default_destination() -> Ipv4Addr {
    Ipv4Addr { a: 10, b: 0, c: 0, d: 1 }
}

/// The network mask used when the configuration gives none: `255.255.255.0`.
pub open spec fn default_netmask() -> Ipv4Addr {
    Ipv4Addr { a: 255, b: 255, c: 255, d: 0 }
}

/// `value`'s content, or `fallback` when there is none.
pub open spec fn addr_or(value: Option<Ipv4Addr>, fallback: Ipv4Addr) -> Ipv4Addr {
    match value {
        Some(v) => v,
        None => fallback,
    }
}

/// The arguments handed to `netsh` to give the adapter `name` its static
/// address, mask and gateway.
pub open spec fn netsh_arguments_of(
    name: Seq<char>,
    address: Ipv4Addr,
    netmask: Ipv4Addr,
    gateway: Ipv4Addr,
) -> Seq<Seq<char>> {
    seq![
        "interface"@,
        "ip"@,
        "set"@,
        "address"@,
        "name="@ + name,
        "source=static"@,
        "address="@ + address.text(),
        "mask="@ + netmask.text(),
        "gateway="@ + gateway.text(),
    ]
}

/// The settings a wintun adapter is brought up with: the configuration's,
/// with the defaults filled in.
#[derive(Debug)]
pub struct AdapterSettings {
    pub name: String,
    pub address: Ipv4Addr,
    pub destination: Ipv4Addr,
    pub netmask: Ipv4Addr,
}

fn addr_or_default(value: Option<Ipv4Addr>, fallback: Ipv4Addr) -> (r: Ipv4Addr)
    ensures
        r == addr_or(value, fallback),
{
    match value {
        Some(v) => v,
        None => fallback,
    }
}

impl AdapterSettings {
    /// Takes each setting from `config`, and the default where it has none.
    pub fn from_config(config: &Configuration) -> (r: AdapterSettings)
        ensures
            r.name@ == (match config.name {
                Some(n) => n@,
                None => default_name(),
            }),
            r.address == addr_or(config.address, default_address()),
            r.destination == addr_or(config.destination, default_destination()),
            r.netmask == addr_or(config.netmask, default_netmask()),
    {
        let name = match &config.name {
            Some(n) => n.clone(),
            None => "wintun".to_owned(),
        };
        AdapterSettings {
            name,
            address: addr_or_default(config.address, Ipv4Addr::new(10, 0, 0, 2)),
            destination: addr_or_default(config.destination, Ipv4Addr::new(10, 0, 0, 1)),
            netmask: addr_or_default(config.netmask, Ipv4Addr::new(255, 255, 255, 0)),
        }
    }

    /// The `netsh` arguments that set the adapter's static address, with
    /// the destination as its gateway.
    pub fn netsh_arguments(&self) -> (r: Vec<String>)
        ensures
            r.deep_view() == netsh_arguments_of(self.name@, self.address, self.netmask, self.destination),
            r@.len() == 9,
            r@[4]@ == "name="@ + self.name@,
            r@[6]@ == "address="@ + self.address.text(),
            r@[7]@ == "mask="@ + self.netmask.text(),
            r@[8]@ == "gateway="@ + self.destination.text(),
    {
        let mut args: Vec<String> = Vec::new();
        args.push("interface".to_owned());
        args.push("ip".to_owned());
        args.push("set".to_owned());
        args.push("address".to_owned());
        let mut name = "name=".to_owned();
        name.append(self.name.as_str());
        args.push(name);
        args.push("source=static".to_owned());
        let mut address = "address=".to_owned();
        address.append(self.address.to_string().as_str());
        args.push(address);
        let mut mask = "mask=".to_owned();
        mask.append(self.netmask.to_string().as_str());
        args.push(mask);
        let mut gateway = "gateway=".to_owned();
        gateway.append(self.destination.to_string().as_str());
        args.push(gateway);
        assert(args.deep_view() =~= netsh_arguments_of(self.name@, self.address, self.netmask, self.destination));
        assert(args@[7]@ == args.deep_view()[7]);
        args
    }
}

/// An argument `prefix` followed by an address's text names that address:
/// the same argument comes only from the same address.
pub proof fn lemma_address_argument_determines(prefix: Seq<char>, x: Ipv4Addr, y: Ipv4Addr)
    requires
        prefix + x.text() == prefix + y.text(),
    ensures
        x == y,
{
    assert(x.text() =~= (prefix + x.text()).skip(prefix.len() as int));
    assert(y.text() =~= (prefix + y.text()).skip(prefix.len() as int));
    lemma_text_determines_address(x, y);
}

/// Settings that differ in address, netmask or destination give `netsh`
/// arguments that differ in the `address=`, `mask=` or `gateway=` argument
/// respectively: each argument carries its setting.
pub proof fn lemma_netsh_arguments_carry_settings(s: AdapterSettings, t: AdapterSettings)
    ensures
        s.address != t.address ==> netsh_arguments_of(s.name@, s.address, s.netmask, s.destination)[6]
            != netsh_arguments_of(t.name@, t.address, t.netmask, t.destination)[6],
        s.netmask != t.netmask ==> netsh_arguments_of(s.name@, s.address, s.netmask, s.destination)[7]
            != netsh_arguments_of(t.name@, t.address, t.netmask, t.destination)[7],
        s.destination != t.destination ==> netsh_arguments_of(s.name@, s.address, s.netmask, s.destination)[8]
            != netsh_arguments_of(t.name@, t.address, t.netmask, t.destination)[8],
{
    if "address="@ + s.address.text() == "address="@ + t.address.text() {
        lemma_address_argument_determines("address="@, s.address, t.address);
    }
    if "mask="@ + s.netmask.text() == "mask="@ + t.netmask.text() {
        lemma_address_argument_determines("mask="@, s.netmask, t.netmask);
    }
    if "gateway="@ + s.destination.text() == "gateway="@ + t.destination.text() {
        lemma_address_argument_determines("gateway="@, s.destination, t.destination);
    }
}

} // verus!
