//! Error kinds of the device core.

use vstd::prelude::*;

verus! {

/// How an operation of the device core fails.
///
/// `InvalidConfig`: the mandatory raw descriptor is missing from the
/// configuration, so no adapter can be constructed.
/// `NotImplemented`: the requested capability does not exist on this
/// platform variant; the adapter stays usable.
/// `OsError`: the last-observed OS error code, reported verbatim for
/// descriptor preparation and I/O failures.
#[derive(Debug, Clone, Copy, PartialEq, Eq, Structural)]
pub enum Error {
    InvalidConfig,
    NotImplemented,
    OsError(i32),
}

} // verus!
