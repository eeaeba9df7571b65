//! In-process model of an IP address.
//!
//! The device core only caches addresses; it never interprets them and never
//! hands them to the OS on this platform variant, so an address is held as
//! plain segment values.

use vstd::prelude::*;

verus! {

/// An IP address, version 4 (four octets) or version 6 (eight 16-bit
/// segments).
#[derive(Debug, Clone, Copy, PartialEq, Eq, Structural)]
pub enum IpAddr {
    V4(u8, u8, u8, u8),
    V6(u16, u16, u16, u16, u16, u16, u16, u16),
}

} // verus!
