//! Core abstraction over a virtual point-to-point tunnel device: an owned
//! descriptor wrapper, a tunnel handle with cached interface metadata, a
//! device adapter for the externally-supplied-descriptor platform, and the
//! split operation that yields independent read and write halves.

use vstd::prelude::*;

pub mod addr;
pub mod capability;
pub mod config;
pub mod device;
pub mod error;
pub mod fd;
pub mod tun;

pub use addr::IpAddr;
pub use capability::AbstractDevice;
pub use config::Configuration;
pub use device::{Device, Reader, Writer};
pub use error::Error;

verus! {

/// Default maximum transmission unit used when the configuration gives none.
pub const DEFAULT_MTU: u16 = 1500;

} // verus!
