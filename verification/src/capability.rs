//! The uniform capability interface that every platform adapter must
//! satisfy.
//!
//! Every operation is always present; a variant that cannot honor one
//! reports `NotImplemented` (or succeeds as a documented no-op) instead of
//! omitting it, so callers can write platform-agnostic code that branches on
//! the error kind. Each adapter's own implementation states exactly which
//! operations it honors and how.

use vstd::prelude::*;
use crate::addr::IpAddr;
use crate::error::Error;

verus! {

/// The capability surface of a tunnel device adapter: name, enablement,
/// address-family get/set, MTU get/set, and the packet-information flag
/// query.
pub trait AbstractDevice {
    /// The interface name.
    fn tun_name(&self) -> (r: Result<String, Error>);

    /// Renames the interface.
    fn set_tun_name(&mut self, value: &str) -> (r: Result<(), Error>);

    /// Enables or disables the interface.
    fn enabled(&mut self, value: bool) -> (r: Result<(), Error>);

    /// The interface address.
    fn address(&self) -> (r: Result<IpAddr, Error>);

    /// Sets the interface address.
    fn set_address(&mut self, value: IpAddr) -> (r: Result<(), Error>);

    /// The destination address of the point-to-point link.
    fn destination(&self) -> (r: Result<IpAddr, Error>);

    /// Sets the destination address of the point-to-point link.
    fn set_destination(&mut self, value: IpAddr) -> (r: Result<(), Error>);

    /// The broadcast address.
    fn broadcast(&self) -> (r: Result<IpAddr, Error>);

    /// Sets the broadcast address.
    fn set_broadcast(&mut self, value: IpAddr) -> (r: Result<(), Error>);

    /// The interface netmask.
    fn netmask(&self) -> (r: Result<IpAddr, Error>);

    /// Sets the interface netmask.
    fn set_netmask(&mut self, value: IpAddr) -> (r: Result<(), Error>);

    /// The maximum transmission unit.
    fn mtu(&self) -> (r: Result<u16, Error>);

    /// Sets the maximum transmission unit.
    fn set_mtu(&mut self, value: u16) -> (r: Result<(), Error>);

    /// Whether a packet-information header precedes each packet on the
    /// stream.
    fn packet_information(&self) -> (r: bool);
}

} // verus!
