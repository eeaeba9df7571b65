//! The device adapter for the externally-supplied-descriptor platform
//! variant, its capability interface, and the split into independent read
//! and write halves.
//!
//! The process has no privilege to allocate a tunnel interface itself: a
//! privileged external actor creates it and hands over the descriptor.
//! There is consequently no interface name to direct OS calls at, so several
//! capabilities are stubbed out and address, netmask and MTU live in an
//! in-process cache only.

use vstd::prelude::*;
use std::sync::Arc;
use crate::DEFAULT_MTU;
use crate::addr::IpAddr;
use crate::capability::AbstractDevice;
use crate::config::Configuration;
use crate::error::Error;
use crate::fd::Fd;
use crate::tun::Tun;

verus! {

/// Hands out a second owner of the shared descriptor wrapper.
///
/// Relies on std::sync::Arc::clone: the clone refers to the very same
/// wrapper, so the descriptor is closed only when the last owner is
/// released.
#[verifier::external_body]
fn share_owner(owner: &Arc<Fd>) -> (r: Arc<Fd>)
    ensures
        r == *owner,
{
    owner.clone()
}

/// A tunnel device adapter: the tunnel handle plus the cached address and
/// netmask.
pub struct Device {
    tun: Tun,
    address_: Option<IpAddr>,
    netmask_: Option<IpAddr>,
}

/// The read half produced by `Device::split`: it shares the descriptor with
/// the write half but exposes only reading.
pub struct Reader {
    raw: i32,
    owner: Arc<Fd>,
}

/// The write half produced by `Device::split`: it shares the descriptor with
/// the read half but exposes only writing.
pub struct Writer {
    raw: i32,
    owner: Arc<Fd>,
}

/// The auto-close flag a configuration asks for: its own value if present,
/// else armed.
pub open spec fn configured_close(c: Configuration) -> bool {
    match c.close_fd_on_drop {
        Some(b) => b,
        None => true,
    }
}

/// The maximum transmission unit a configuration asks for: its own value if
/// present, else the library default.
pub open spec fn configured_mtu(c: Configuration) -> u16 {
    match c.mtu {
        Some(m) => m,
        None => DEFAULT_MTU,
    }
}

/// What a freshly constructed adapter holds, given the configuration it was
/// built from.
pub open spec fn constructed_from(d: Device, c: Configuration) -> bool {
    &&& c.raw_fd is Some
    &&& d.raw_fd_spec() == c.raw_fd->Some_0
    &&& d.wf()
    &&& d.armed_spec() == configured_close(c)
    &&& d.mtu_spec() == configured_mtu(c)
    &&& d.packet_information_spec() == false
    &&& d.address_spec() == c.address
    &&& d.netmask_spec() == c.netmask
}

/// What querying the cached address reports: the cached value, or
/// `NotImplemented` when nothing was ever cached.
pub open spec fn address_query(d: Device) -> Result<IpAddr, Error> {
    match d.address_spec() {
        Some(a) => Ok(a),
        None => Err(Error::NotImplemented),
    }
}

/// What querying the cached netmask reports: the cached value, or
/// `NotImplemented` when nothing was ever cached.
pub open spec fn netmask_query(d: Device) -> Result<IpAddr, Error> {
    match d.netmask_spec() {
        Some(a) => Ok(a),
        None => Err(Error::NotImplemented),
    }
}

impl Device {
    /// The raw descriptor value behind this adapter.
    pub closed spec fn raw_fd_spec(self) -> i32 {
        self.tun.raw_fd_spec()
    }

    /// Whether releasing this adapter closes the descriptor.
    pub closed spec fn armed_spec(self) -> bool {
        self.tun.armed_spec()
    }

    /// The cached maximum transmission unit.
    pub closed spec fn mtu_spec(self) -> u16 {
        self.tun.mtu_spec()
    }

    /// The packet-information flag, fixed at construction.
    pub closed spec fn packet_information_spec(self) -> bool {
        self.tun.packet_information_spec()
    }

    /// The cached address, if one was ever set.
    pub closed spec fn address_spec(self) -> Option<IpAddr> {
        self.address_
    }

    /// The cached netmask, if one was ever set.
    pub closed spec fn netmask_spec(self) -> Option<IpAddr> {
        self.netmask_
    }

    /// Well-formedness: the underlying descriptor is well formed.
    pub open spec fn wf(self) -> bool {
        self.raw_fd_spec() >= 0
    }

    /// Everything but the address cache is unchanged.
    pub open spec fn same_but_address(self, other: Device) -> bool {
        &&& self.raw_fd_spec() == other.raw_fd_spec()
        &&& self.armed_spec() == other.armed_spec()
        &&& self.mtu_spec() == other.mtu_spec()
        &&& self.packet_information_spec() == other.packet_information_spec()
        &&& self.netmask_spec() == other.netmask_spec()
    }

    /// Everything but the netmask cache is unchanged.
    pub open spec fn same_but_netmask(self, other: Device) -> bool {
        &&& self.raw_fd_spec() == other.raw_fd_spec()
        &&& self.armed_spec() == other.armed_spec()
        &&& self.mtu_spec() == other.mtu_spec()
        &&& self.packet_information_spec() == other.packet_information_spec()
        &&& self.address_spec() == other.address_spec()
    }

    /// Everything but the cached maximum transmission unit is unchanged.
    pub open spec fn same_but_mtu(self, other: Device) -> bool {
        &&& self.raw_fd_spec() == other.raw_fd_spec()
        &&& self.armed_spec() == other.armed_spec()
        &&& self.packet_information_spec() == other.packet_information_spec()
        &&& self.address_spec() == other.address_spec()
        &&& self.netmask_spec() == other.netmask_spec()
    }

    /// Creates a new adapter for the given configuration.
    ///
    /// Without a raw descriptor in the configuration, construction fails
    /// with `InvalidConfig` whatever the other fields hold. With a negative
    /// descriptor value it fails with the last OS error. With a valid
    /// descriptor it succeeds, wrapping that very descriptor with the
    /// configured auto-close flag (default: armed), the configured maximum
    /// transmission unit (default: the library default), no
    /// packet-information framing, and the configured address and netmask as
    /// the initial caches. No partially-usable adapter is ever returned.
    pub fn new(config: &Configuration) -> (r: Result<Device, Error>)
        ensures
            config.raw_fd is None ==> r == Err::<Device, Error>(Error::InvalidConfig),
            config.raw_fd is Some && config.raw_fd->Some_0 < 0 ==> r is Err && r->Err_0 is OsError,
            config.raw_fd is Some && config.raw_fd->Some_0 >= 0 ==> r is Ok,
            r is Ok ==> constructed_from(r->Ok_0, *config),
    {
        let close_fd_on_drop = match config.close_fd_on_drop {
            Some(b) => b,
            None => true,
        };
        let fd = match config.raw_fd {
            Some(raw_fd) => raw_fd,
            None => {
                return Err(Error::InvalidConfig);
            }
        };
        let mtu = match config.mtu {
            Some(m) => m,
            None => DEFAULT_MTU,
        };
        let fd_owner = match Fd::new(fd, close_fd_on_drop) {
            Ok(owner) => owner,
            Err(e) => {
                return Err(e);
            }
        };
        Ok(Device {
            tun: Tun::new(fd_owner, mtu, false),
            address_: config.address,
            netmask_: config.netmask,
        })
    }

    /// Consumes the adapter and returns two independent handles over the
    /// same descriptor: a read half and a write half. The adapter's
    /// capability interface is no longer reachable afterwards; the
    /// descriptor is closed, according to the auto-close flag, only when
    /// both halves have been released.
    pub fn split(self) -> (r: (Reader, Writer))
        requires
            self.wf(),
        ensures
            r.0.raw_fd_spec() == self.raw_fd_spec(),
            r.1.raw_fd_spec() == self.raw_fd_spec(),
            r.0.wf(),
            r.1.wf(),
    {
        let fd_owner = self.tun.into_fd();
        let raw = fd_owner.raw();
        let owner = Arc::new(fd_owner);
        let second = share_owner(&owner);
        (Reader { raw, owner }, Writer { raw, owner: second })
    }

    /// Toggles the underlying descriptor into non-blocking mode; failure
    /// carries the OS error code.
    pub fn set_nonblock(&self) -> (r: Result<(), Error>)
        ensures
            r is Err ==> r->Err_0 is OsError,
    {
        self.tun.set_nonblock()
    }

    /// Reads raw bytes from the descriptor into the start of `buf`; see
    /// `Tun::read`.
    pub fn read(&mut self, buf: &mut Vec<u8>) -> (r: Result<usize, Error>)
        ensures
            *final(self) == *old(self),
            final(buf)@.len() == old(buf)@.len(),
            r is Ok ==> r->Ok_0 <= old(buf)@.len(),
            r is Err ==> r->Err_0 is OsError,
    {
        self.tun.read(buf)
    }

    /// Writes the raw bytes of `buf` to the descriptor; see `Tun::write`.
    pub fn write(&mut self, buf: &[u8]) -> (r: Result<usize, Error>)
        ensures
            *final(self) == *old(self),
            r is Ok ==> r->Ok_0 <= buf@.len(),
            r is Err ==> r->Err_0 is OsError,
    {
        self.tun.write(buf)
    }

    /// Flushing is a no-op that always succeeds: descriptor writes are
    /// unbuffered.
    pub fn flush(&mut self) -> (r: Result<(), Error>)
        ensures
            *final(self) == *old(self),
            r is Ok,
    {
        self.tun.flush()
    }

    /// The raw descriptor value, without any transfer of ownership: the
    /// adapter keeps closing the descriptor according to its auto-close
    /// flag. Used for registration with external I/O readiness mechanisms.
    pub fn as_raw_fd(&self) -> (r: i32)
        ensures
            r == self.raw_fd_spec(),
    {
        self.tun.raw_fd()
    }

    /// Consumes the adapter and returns the exact raw descriptor value it
    /// was constructed over, disarming auto-close: the caller becomes solely
    /// responsible for eventually closing the descriptor.
    pub fn into_raw_fd(self) -> (r: i32)
        ensures
            r == self.raw_fd_spec(),
    {
        self.tun.into_raw_fd()
    }
}

impl AbstractDevice for Device {
    /// This platform variant has no notion of an interface name: the query
    /// always succeeds with the empty string.
    fn tun_name(&self) -> (r: Result<String, Error>)
        ensures
            r is Ok,
            r->Ok_0@ == Seq::<char>::empty(),
    {
        Ok(String::new())
    }

    /// Renaming the interface is unsupported on this platform variant: the
    /// call always fails with `NotImplemented` and changes nothing.
    fn set_tun_name(&mut self, value: &str) -> (r: Result<(), Error>)
        ensures
            *final(self) == *old(self),
            r == Err::<(), Error>(Error::NotImplemented),
    {
        Err(Error::NotImplemented)
    }

    /// Toggling interface enablement has no OS-level counterpart on this
    /// platform variant: the call always succeeds and has no observable
    /// effect.
    fn enabled(&mut self, value: bool) -> (r: Result<(), Error>)
        ensures
            *final(self) == *old(self),
            r is Ok,
    {
        Ok(())
    }

    /// The cached address: the value last set (or supplied at construction),
    /// or `NotImplemented` when nothing was ever cached.
    fn address(&self) -> (r: Result<IpAddr, Error>)
        ensures
            r == address_query(*self),
    {
        match self.address_ {
            Some(value) => Ok(value),
            None => Err(Error::NotImplemented),
        }
    }

    /// Replaces the cached address; nothing is pushed to the OS, since there
    /// is no interface identifier to direct a call at.
    fn set_address(&mut self, value: IpAddr) -> (r: Result<(), Error>)
        ensures
            r is Ok,
            final(self).address_spec() == Some(value),
            final(self).same_but_address(*old(self)),
    {
        self.address_ = Some(value);
        Ok(())
    }

    /// A destination address is unavailable on this platform variant: the
    /// query always fails with `NotImplemented`.
    fn destination(&self) -> (r: Result<IpAddr, Error>)
        ensures
            r == Err::<IpAddr, Error>(Error::NotImplemented),
    {
        Err(Error::NotImplemented)
    }

    /// Setting a destination address has no OS-level counterpart on this
    /// platform variant: the call always succeeds and has no observable
    /// effect.
    fn set_destination(&mut self, value: IpAddr) -> (r: Result<(), Error>)
        ensures
            *final(self) == *old(self),
            r is Ok,
    {
        Ok(())
    }

    /// A broadcast address is unavailable on this platform variant: the
    /// query always fails with `NotImplemented`.
    fn broadcast(&self) -> (r: Result<IpAddr, Error>)
        ensures
            r == Err::<IpAddr, Error>(Error::NotImplemented),
    {
        Err(Error::NotImplemented)
    }

    /// Setting a broadcast address has no OS-level counterpart on this
    /// platform variant: the call always succeeds and has no observable
    /// effect.
    fn set_broadcast(&mut self, value: IpAddr) -> (r: Result<(), Error>)
        ensures
            *final(self) == *old(self),
            r is Ok,
    {
        Ok(())
    }

    /// The cached netmask: the value last set (or supplied at construction),
    /// or `NotImplemented` when nothing was ever cached.
    fn netmask(&self) -> (r: Result<IpAddr, Error>)
        ensures
            r == netmask_query(*self),
    {
        match self.netmask_ {
            Some(value) => Ok(value),
            None => Err(Error::NotImplemented),
        }
    }

    /// Replaces the cached netmask; nothing is pushed to the OS, since there
    /// is no interface identifier to direct a call at.
    fn set_netmask(&mut self, value: IpAddr) -> (r: Result<(), Error>)
        ensures
            r is Ok,
            final(self).netmask_spec() == Some(value),
            final(self).same_but_netmask(*old(self)),
    {
        self.netmask_ = Some(value);
        Ok(())
    }

    /// The cached maximum transmission unit; always succeeds, since no
    /// driver is queried on this platform variant.
    fn mtu(&self) -> (r: Result<u16, Error>)
        ensures
            r == Ok::<u16, Error>(self.mtu_spec()),
    {
        Ok(self.tun.mtu())
    }

    /// Replaces the cached maximum transmission unit; always succeeds, since
    /// nothing is pushed to any driver on this platform variant.
    fn set_mtu(&mut self, value: u16) -> (r: Result<(), Error>)
        ensures
            r is Ok,
            final(self).mtu_spec() == value,
            final(self).same_but_mtu(*old(self)),
    {
        self.tun.set_mtu(value);
        Ok(())
    }

    /// The packet-information flag fixed at construction; on this platform
    /// variant it is always off.
    fn packet_information(&self) -> (r: bool)
        ensures
            r == self.packet_information_spec(),
    {
        self.tun.packet_information()
    }
}

impl Reader {
    /// The raw descriptor value shared with the write half.
    pub closed spec fn raw_fd_spec(self) -> i32 {
        self.raw
    }

    /// Well-formedness: the shared descriptor is well formed.
    pub open spec fn wf(self) -> bool {
        self.raw_fd_spec() >= 0
    }

    /// Reads raw bytes from the shared descriptor into the start of `buf`.
    /// Returns the number of bytes transferred, at most the buffer's length,
    /// or the OS error of the failed call; the buffer keeps its length and
    /// only its own contents are touched.
    pub fn read(&mut self, buf: &mut Vec<u8>) -> (r: Result<usize, Error>)
        ensures
            *final(self) == *old(self),
            final(buf)@.len() == old(buf)@.len(),
            r is Ok ==> r->Ok_0 <= old(buf)@.len(),
            r is Err ==> r->Err_0 is OsError,
    {
        match crate::tun::fd_read(self.raw, buf) {
            Ok(n) => Ok(n),
            Err(code) => Err(Error::OsError(code)),
        }
    }
}

impl Writer {
    /// The raw descriptor value shared with the read half.
    pub closed spec fn raw_fd_spec(self) -> i32 {
        self.raw
    }

    /// Well-formedness: the shared descriptor is well formed.
    pub open spec fn wf(self) -> bool {
        self.raw_fd_spec() >= 0
    }

    /// Writes the raw bytes of `buf` to the shared descriptor. Returns the
    /// number of bytes the OS accepted, at most the buffer's length, or the
    /// OS error of the failed call; only its own buffer is read.
    pub fn write(&mut self, buf: &[u8]) -> (r: Result<usize, Error>)
        ensures
            *final(self) == *old(self),
            r is Ok ==> r->Ok_0 <= buf@.len(),
            r is Err ==> r->Err_0 is OsError,
    {
        match crate::tun::fd_write(self.raw, buf) {
            Ok(n) => Ok(n),
            Err(code) => Err(Error::OsError(code)),
        }
    }

    /// Descriptor writes are unbuffered, so flushing is a no-op that always
    /// succeeds.
    pub fn flush(&mut self) -> (r: Result<(), Error>)
        ensures
            *final(self) == *old(self),
            r is Ok,
    {
        Ok(())
    }
}

/// A constructed adapter carries the maximum transmission unit the
/// configuration supplied, and the library default where the configuration
/// supplied none; `Device::mtu` reports exactly that value.
pub proof fn lemma_mtu_from_config(d: Device, c: Configuration)
    requires
        constructed_from(d, c),
    ensures
        c.mtu matches Some(m) ==> d.mtu_spec() == m,
        c.mtu is None ==> d.mtu_spec() == DEFAULT_MTU,
{
}

/// Setting the address and then querying it yields exactly the address set:
/// `Device::set_address(a)` leaves the adapter with `address_spec() ==
/// Some(a)`, and on such an adapter `Device::address` reports `Ok(a)`, for
/// any address `a`.
pub proof fn lemma_address_round_trip(d: Device, a: IpAddr)
    requires
        d.address_spec() == Some(a),
    ensures
        address_query(d) == Ok::<IpAddr, Error>(a),
{
}

/// Querying the address of an adapter whose cache was never filled — no
/// initial address in the configuration and no `set_address` call — fails
/// with `NotImplemented`.
pub proof fn lemma_address_unset(d: Device)
    requires
        d.address_spec() is None,
    ensures
        address_query(d) == Err::<IpAddr, Error>(Error::NotImplemented),
{
}

/// Setting the netmask and then querying it yields exactly the netmask set,
/// for any netmask `a`.
pub proof fn lemma_netmask_round_trip(d: Device, a: IpAddr)
    requires
        d.netmask_spec() == Some(a),
    ensures
        netmask_query(d) == Ok::<IpAddr, Error>(a),
{
}

/// Querying the netmask of an adapter whose cache was never filled fails
/// with `NotImplemented`.
pub proof fn lemma_netmask_unset(d: Device)
    requires
        d.netmask_spec() is None,
    ensures
        netmask_query(d) == Err::<IpAddr, Error>(Error::NotImplemented),
{
}

/// A constructed adapter holds the exact raw descriptor the configuration
/// supplied; `Device::into_raw_fd` and `Device::as_raw_fd` report exactly
/// that value.
pub proof fn lemma_raw_descriptor_preserved(d: Device, c: Configuration)
    requires
        constructed_from(d, c),
    ensures
        d.raw_fd_spec() == c.raw_fd->Some_0,
{
}

} // verus!
