//! Network addresses and request identifiers as plain values.
use vstd::prelude::*;

verus! {

/// The address of a peer: an IP address and a port.
///
/// A version 6 address carries its flow information and scope id as well, so that two
/// addresses are equal exactly when every part of them is.
#[derive(Clone, Copy, Debug, PartialEq, Eq, Structural, Hash)]
pub enum SocketAddress {
    V4 { ip: u32, port: u16 },
    V6 { ip6: u128, port: u16, flowinfo: u32, scope_id: u32 },
}

/// The identifier of a request that a peer keeps open: the moment it was made, as
/// seconds and nanoseconds since the Unix epoch.
#[derive(Clone, Copy, Debug, PartialEq, Eq, Structural, Hash)]
pub struct RequestId {
    pub secs: u64,
    pub nanos: u32,
}

} // verus!
