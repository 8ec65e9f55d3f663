//! Plain values that stand for the bridge and for what its calls report.

use vstd::prelude::*;

verus! {

/// The network address of a bridge: the 32 bits of an IPv4 address or the 128 bits
/// of an IPv6 address, most significant octet first.
#[derive(Clone, Copy, Debug, PartialEq, Eq, Structural)]
pub enum BridgeAddress {
    V4(u32),
    V6(u128),
}

/// How a call to the bridge failed, as far as the decisions of this library tell
/// failures apart.
#[derive(Clone, Copy, Debug, PartialEq, Eq, Structural)]
pub enum BridgeFailure {
    /// The request never reached the bridge or no answer came back.
    Transport,
    /// The bridge does not know the credential.
    Unauthorized,
    /// The bridge waits for its link button to be pressed.
    LinkButtonNotPressed,
    /// Any other failure.
    Other,
}

} // verus!
