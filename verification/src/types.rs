//! Plain values shared by the subsystems.

use vstd::prelude::*;

verus! {

/// Digital input or output level.
#[derive(Clone, Copy, Debug, PartialEq, Eq, Structural)]
pub enum Level {
    Low,
    High,
}

/// Pull setting for an input.
#[derive(Clone, Copy, Debug, PartialEq, Eq, Structural)]
pub enum Pull {
    Floating,
    Up,
    Down,
    UpDown,
}

/// Length of a subnet prefix, in bits.
#[derive(Clone, Copy, Debug, PartialEq, Eq)]
pub struct Mask(pub u8);

/// Gateway address and prefix length of the network an interface joined.
#[derive(Clone, Copy, Debug, PartialEq, Eq)]
pub struct Subnet {
    pub gateway: [u8; 4],
    pub mask: Mask,
}

/// What a network interface was assigned when it came up. Addresses are the
/// four octets of an IPv4 address, most significant first.
#[derive(Clone, Copy, Debug, PartialEq, Eq)]
pub struct IpInfo {
    pub ip: [u8; 4],
    pub subnet: Subnet,
    pub dns: Option<[u8; 4]>,
    pub secondary_dns: Option<[u8; 4]>,
}

/// Phase of the network-join lifecycle.
#[derive(Clone, Copy, Debug, PartialEq, Eq)]
pub enum WifiState {
    Disconnected,
    Connecting,
    AcquiringIp,
    Connected(IpInfo),
}

impl Default for WifiState {
    fn default() -> (state: Self)
        ensures
            state == WifiState::Disconnected,
    {
        WifiState::Disconnected
    }
}

impl WifiState {
    /// Whether the join has completed: true for `Connected` and for nothing else.
    pub fn is_connected(&self) -> (online: bool)
        ensures
            online == (*self is Connected),
    {
        match self {
            WifiState::Connected(_) => true,
            _ => false,
        }
    }
}

} // verus!
