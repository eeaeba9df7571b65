//! The owned descriptor: a raw OS file descriptor together with an explicit
//! "close on release" flag.
//!
//! Exactly one wrapper owns a descriptor at a time. Releasing the final owner
//! closes the descriptor iff the flag is armed; extracting the raw value
//! disarms the wrapper so no double close can occur.

use vstd::prelude::*;
use crate::error::Error;

verus! {

/// Reads the error code the OS recorded for the last failing call of this
/// thread.
///
/// Relies on nix::errno::errno, which returns the thread-local `errno` value.
/// The value depends on what the OS last reported, so nothing is promised
/// of it.
#[verifier::external_body]
fn last_os_error() -> i32 {
    nix::errno::errno()
}

/// Switches the descriptor into non-blocking mode.
///
/// Relies on nix::fcntl::fcntl: one `F_GETFL` call reads the current status
/// flags, one `F_SETFL` call writes them back with `O_NONBLOCK` added. On
/// failure the OS error code is returned; nothing is promised of the outcome,
/// since the OS decides whether the descriptor accepts the change.
#[verifier::external_body]
fn fd_set_nonblock(fd: i32) -> (r: Result<(), i32>) {
    match nix::fcntl::fcntl(fd, nix::fcntl::FcntlArg::F_GETFL) {
        Ok(flags) => {
            let updated = nix::fcntl::OFlag::from_bits_truncate(flags) | nix::fcntl::OFlag::O_NONBLOCK;
            match nix::fcntl::fcntl(fd, nix::fcntl::FcntlArg::F_SETFL(updated)) {
                Ok(_) => Ok(()),
                Err(e) => Err(e as i32),
            }
        }
        Err(e) => Err(e as i32),
    }
}

/// An owned raw descriptor with an auto-close flag.
pub struct Fd {
    raw: i32,
    close_on_drop: bool,
}

impl Fd {
    /// The raw descriptor value held by this wrapper.
    pub closed spec fn raw_spec(self) -> i32 {
        self.raw
    }

    /// Whether releasing this wrapper closes the descriptor.
    pub closed spec fn armed_spec(self) -> bool {
        self.close_on_drop
    }

    /// Well-formedness: a wrapped descriptor is never negative.
    pub open spec fn wf(self) -> bool {
        self.raw_spec() >= 0
    }

    /// Wraps an existing, already-valid descriptor. A negative value cannot
    /// name an open descriptor, so it is rejected with the last OS error;
    /// every non-negative value is accepted, with the given auto-close flag.
    pub fn new(value: i32, close_on_drop: bool) -> (r: Result<Fd, Error>)
        ensures
            r is Ok <==> value >= 0,
            r is Ok ==> r->Ok_0.raw_spec() == value,
            r is Ok ==> r->Ok_0.armed_spec() == close_on_drop,
            r is Ok ==> r->Ok_0.wf(),
            r is Err ==> r->Err_0 is OsError,
    {
        if value < 0 {
            Err(Error::OsError(last_os_error()))
        } else {
            Ok(Fd { raw: value, close_on_drop })
        }
    }

    /// The raw descriptor value, without any transfer of ownership.
    pub fn raw(&self) -> (r: i32)
        ensures
            r == self.raw_spec(),
    {
        self.raw
    }

    /// Toggles the underlying descriptor into non-blocking mode. The mode is
    /// a property of the OS-level descriptor, so it affects every handle
    /// sharing it. Failure carries the OS error code.
    pub fn set_nonblock(&self) -> (r: Result<(), Error>)
        ensures
            r is Err ==> r->Err_0 is OsError,
    {
        match fd_set_nonblock(self.raw) {
            Ok(()) => Ok(()),
            Err(code) => Err(Error::OsError(code)),
        }
    }

    /// Returns the raw descriptor value and disarms auto-close: the caller
    /// becomes solely responsible for eventually closing it.
    ///
    /// Relies on core::mem::forget to skip this wrapper's release, so the
    /// descriptor stays open after the extraction.
    #[verifier::external_body]
    pub fn into_raw(self) -> (r: i32)
        ensures
            r == self.raw_spec(),
    {
        let value = self.raw;
        core::mem::forget(self);
        value
    }
}

impl Drop for Fd {
    /// Relies on nix::unistd::close: releases the descriptor iff the
    /// auto-close flag is still armed, so a descriptor is closed at most once
    /// and only by its final owner.
    #[verifier::external_body]
    fn drop(&mut self)
        opens_invariants none
        no_unwind
    {
        if self.close_on_drop {
            let _ = nix::unistd::close(self.raw);
        }
    }
}

} // verus!
