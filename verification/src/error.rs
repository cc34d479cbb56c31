//! Failure kinds surfaced by the hardware abstraction layer.

use vstd::prelude::*;

verus! {

/// Why an operation on the device did not produce a value.
#[derive(Clone, Copy, Debug, PartialEq, Eq, Structural)]
pub enum IoctlError {
    /// The hardware or an optional feature of it is absent: the presence
    /// check failed, a sensor reported its "not present" sentinel, the fan
    /// index names no wired fan, or the unit reports an unsupported
    /// capability set.
    DevNotAvailable,
    /// The caller passed a value outside the accepted domain.
    InvalidArgs,
    /// The capability is never offered by this hardware family.
    Unimplemented,
    /// The register transfer itself failed; carries the error number the
    /// transport reported, untouched.
    Transport(i32),
}

} // verus!
