use vstd::prelude::*;

verus! {

/// A network address held as plain bits: an IPv4 address as its 32 bits,
/// an IPv6 address as its 128 bits, most significant octet first.
#[derive(Clone, Copy, Debug, PartialEq, Eq, Structural)]
pub enum IpAddress {
    V4(u32),
    V6(u128),
}

impl IpAddress {
    /// Whether this is an address of the preferred family, IPv4.
    pub fn is_ipv4(&self) -> (r: bool)
        ensures
            r == (*self is V4),
    {
        match self {
            IpAddress::V4(_) => true,
            IpAddress::V6(_) => false,
        }
    }
}

} // verus!
