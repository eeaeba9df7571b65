//! The tunnel handle: an owned descriptor composed with cached interface
//! metadata (maximum transmission unit and the packet-information framing
//! flag), plus raw byte pass-through.
//!
//! The metadata is an in-process cache only: on this platform variant there
//! is no interface name to push changes to.

use vstd::prelude::*;
use crate::error::Error;
use crate::fd::Fd;

verus! {

/// Fills the buffer from the descriptor.
///
/// Relies on nix::unistd::read: on success the number of bytes placed at the
/// start of the buffer is returned, never more than the buffer holds; the
/// buffer keeps its length either way. What the bytes are depends on the
/// peer, so nothing is promised of the contents. On failure the OS error
/// code is returned.
#[verifier::external_body]
pub(crate) fn fd_read(fd: i32, buf: &mut Vec<u8>) -> (r: Result<usize, i32>)
    ensures
        final(buf)@.len() == old(buf)@.len(),
        r is Ok ==> r->Ok_0 <= old(buf)@.len(),
{
    match nix::unistd::read(fd, buf.as_mut_slice()) {
        Ok(n) => Ok(n),
        Err(e) => Err(e as i32),
    }
}

/// Hands the buffer to the descriptor.
///
/// Relies on nix::unistd::write: on success the number of bytes the OS
/// accepted is returned, never more than the buffer holds. On failure the
/// OS error code is returned.
#[verifier::external_body]
pub(crate) fn fd_write(fd: i32, buf: &[u8]) -> (r: Result<usize, i32>)
    ensures
        r is Ok ==> r->Ok_0 <= buf@.len(),
{
    match nix::unistd::write(fd, buf) {
        Ok(n) => Ok(n),
        Err(e) => Err(e as i32),
    }
}

/// A tunnel handle: the owned descriptor and the in-process interface
/// metadata.
pub struct Tun {
    fd: Fd,
    mtu: u16,
    packet_information: bool,
}

impl Tun {
    /// The raw descriptor value behind this handle.
    pub closed spec fn raw_fd_spec(self) -> i32 {
        self.fd.raw_spec()
    }

    /// Whether releasing this handle closes the descriptor.
    pub closed spec fn armed_spec(self) -> bool {
        self.fd.armed_spec()
    }

    /// The cached maximum transmission unit.
    pub closed spec fn mtu_spec(self) -> u16 {
        self.mtu
    }

    /// The packet-information flag, fixed at construction.
    pub closed spec fn packet_information_spec(self) -> bool {
        self.packet_information
    }

    /// Well-formedness: the underlying descriptor is well formed.
    pub open spec fn wf(self) -> bool {
        self.raw_fd_spec() >= 0
    }

    /// Pure composition of a descriptor with its metadata; no I/O.
    pub fn new(fd: Fd, mtu: u16, packet_information: bool) -> (r: Tun)
        ensures
            r.raw_fd_spec() == fd.raw_spec(),
            r.armed_spec() == fd.armed_spec(),
            r.mtu_spec() == mtu,
            r.packet_information_spec() == packet_information,
    {
        Tun { fd, mtu, packet_information }
    }

    /// Reads raw bytes from the descriptor into the start of `buf`. Returns
    /// the number of bytes transferred, at most the buffer's length, or the
    /// OS error of the failed call; the buffer keeps its length, and the
    /// handle is unchanged either way. No buffering and no framing: when the
    /// packet-information flag is set a 4-byte header precedes each packet on
    /// the stream, but this layer neither adds nor strips it.
    pub fn read(&mut self, buf: &mut Vec<u8>) -> (r: Result<usize, Error>)
        ensures
            *final(self) == *old(self),
            final(buf)@.len() == old(buf)@.len(),
            r is Ok ==> r->Ok_0 <= old(buf)@.len(),
            r is Err ==> r->Err_0 is OsError,
    {
        match fd_read(self.fd.raw(), buf) {
            Ok(n) => Ok(n),
            Err(code) => Err(Error::OsError(code)),
        }
    }

    /// Writes the raw bytes of `buf` to the descriptor. Returns the number
    /// of bytes the OS accepted, at most the buffer's length, or the OS
    /// error of the failed call; the handle is unchanged either way.
    pub fn write(&mut self, buf: &[u8]) -> (r: Result<usize, Error>)
        ensures
            *final(self) == *old(self),
            r is Ok ==> r->Ok_0 <= buf@.len(),
            r is Err ==> r->Err_0 is OsError,
    {
        match fd_write(self.fd.raw(), buf) {
            Ok(n) => Ok(n),
            Err(code) => Err(Error::OsError(code)),
        }
    }

    /// Descriptor writes are unbuffered, so flushing is a no-op that always
    /// succeeds; it exists to satisfy the generic byte-stream capability
    /// contract.
    pub fn flush(&mut self) -> (r: Result<(), Error>)
        ensures
            *final(self) == *old(self),
            r is Ok,
    {
        Ok(())
    }

    /// The cached maximum transmission unit; no OS call is made.
    pub fn mtu(&self) -> (r: u16)
        ensures
            r == self.mtu_spec(),
    {
        self.mtu
    }

    /// Replaces the cached maximum transmission unit; nothing else changes
    /// and no OS call is made.
    pub fn set_mtu(&mut self, value: u16)
        ensures
            final(self).mtu_spec() == value,
            final(self).raw_fd_spec() == old(self).raw_fd_spec(),
            final(self).armed_spec() == old(self).armed_spec(),
            final(self).packet_information_spec() == old(self).packet_information_spec(),
    {
        self.mtu = value;
    }

    /// The packet-information flag fixed at construction.
    pub fn packet_information(&self) -> (r: bool)
        ensures
            r == self.packet_information_spec(),
    {
        self.packet_information
    }

    /// Toggles the underlying descriptor into non-blocking mode; failure
    /// carries the OS error code.
    pub fn set_nonblock(&self) -> (r: Result<(), Error>)
        ensures
            r is Err ==> r->Err_0 is OsError,
    {
        self.fd.set_nonblock()
    }

    /// The raw descriptor value, without any transfer of ownership.
    pub fn raw_fd(&self) -> (r: i32)
        ensures
            r == self.raw_fd_spec(),
    {
        self.fd.raw()
    }

    /// Consumes the handle and hands back the owned descriptor, dropping the
    /// cached metadata.
    pub fn into_fd(self) -> (r: Fd)
        ensures
            r.raw_spec() == self.raw_fd_spec(),
            r.armed_spec() == self.armed_spec(),
    {
        self.fd
    }

    /// Consumes the handle and returns the raw descriptor value, disarming
    /// auto-close: the caller becomes solely responsible for eventually
    /// closing the descriptor.
    pub fn into_raw_fd(self) -> (r: i32)
        ensures
            r == self.raw_fd_spec(),
    {
        self.fd.into_raw()
    }
}

} // verus!
