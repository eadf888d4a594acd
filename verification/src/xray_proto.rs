//! Messages of the Xray core's gRPC interface that the agent exchanges:
//! statistics channel settings and network addresses and ports.
use vstd::prelude::*;

verus! {

/// Settings of the statistics service (it has none).
#[derive(Clone, Copy, Debug, PartialEq, Eq, Structural)]
pub struct Config {}

/// Settings of a statistics channel.
#[derive(Clone, Copy, Debug, PartialEq, Eq, Structural)]
pub struct ChannelConfig {
    pub blocking: bool,
    pub subscriber_limit: i32,
    pub buffer_size: i32,
}

/// Address of a network host: an IP address (4 or 16 bytes) or a domain name.
#[derive(Clone, Debug, PartialEq, Eq)]
pub enum Address {
    Ip(Vec<u8>),
    Domain(String),
}

/// A host address that may be left unset.
#[derive(Clone, Debug, PartialEq, Eq)]
pub struct IpOrDomain {
    pub address: Option<Address>,
}

/// A range of ports, both ends included.
#[derive(Clone, Copy, Debug, PartialEq, Eq, Structural)]
pub struct PortRange {
    pub from: u32,
    pub to: u32,
}

/// A list of port ranges.
#[derive(Clone, Debug, PartialEq, Eq)]
pub struct PortList {
    pub range: Vec<PortRange>,
}

impl Default for Config {
    fn default() -> (r: Self)
        ensures
            r == (Config {}),
    {
        Config {}
    }
}

impl Default for ChannelConfig {
    fn default() -> (r: Self)
        ensures
            !r.blocking,
            r.subscriber_limit == 0,
            r.buffer_size == 0,
    {
        ChannelConfig { blocking: false, subscriber_limit: 0, buffer_size: 0 }
    }
}

impl Default for IpOrDomain {
    fn default() -> (r: Self)
        ensures
            r.address is None,
    {
        IpOrDomain { address: None }
    }
}

impl Default for PortRange {
    fn default() -> (r: Self)
        ensures
            r.from == 0,
            r.to == 0,
    {
        PortRange { from: 0, to: 0 }
    }
}

impl Default for PortList {
    fn default() -> (r: Self)
        ensures
            r.range@.len() == 0,
    {
        PortList { range: Vec::new() }
    }
}

} // verus!
