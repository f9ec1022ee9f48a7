//! Platform status codes, surfaced unchanged by every boundary operation.

use vstd::prelude::*;

verus! {

/// Status code returned by a firmware call. Every fallible operation of this
/// crate either succeeds with a payload or hands the caller one of these,
/// unmodified; nothing is retried or swallowed.
#[derive(Clone, Copy, Debug, PartialEq, Eq, Structural)]
pub enum Status {
    Success,
    InvalidParameter,
    Unsupported,
    BadBufferSize,
    DeviceError,
    WriteProtected,
    OutOfResources,
    NoMedia,
    MediaChanged,
}

} // verus!
