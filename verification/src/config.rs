//! The configuration value consumed by the device adapter constructor.

use vstd::prelude::*;
use crate::addr::IpAddr;

verus! {

/// Construction input for a device adapter.
///
/// On this platform variant the process cannot allocate a tunnel interface
/// itself: a privileged external actor creates it and hands over the raw
/// descriptor, so `raw_fd` is mandatory. Every other field is optional.
#[derive(Debug, Clone, Copy, PartialEq, Eq, Structural)]
pub struct Configuration {
    /// Externally supplied raw descriptor; absence is a hard error.
    pub raw_fd: Option<i32>,
    /// Whether releasing the adapter closes the descriptor; defaults to true.
    pub close_fd_on_drop: Option<bool>,
    /// Maximum transmission unit; defaults to the library default.
    pub mtu: Option<u16>,
    /// Initial cached address.
    pub address: Option<IpAddr>,
    /// Initial cached netmask.
    pub netmask: Option<IpAddr>,
}

impl Default for Configuration {
    /// An empty configuration: no field set.
    fn default() -> (r: Self)
        ensures
            r.raw_fd is None,
            r.close_fd_on_drop is None,
            r.mtu is None,
            r.address is None,
            r.netmask is None,
    {
        Configuration {
            raw_fd: None,
            close_fd_on_drop: None,
            mtu: None,
            address: None,
            netmask: None,
        }
    }
}

} // verus!
