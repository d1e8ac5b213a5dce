//! The library's error surface.
//!
//! Only construction is recoverable: a failed native window or rendering
//! resource creation is returned to the caller.  A duplicate window-class
//! registration is benign and treated as success by the callers.  Any other
//! platform call the design assumes cannot fail is, on failure, fatal in
//! the host — that path never reaches this type.

use vstd::prelude::*;

verus! {

/// What can go wrong, mirrored over plain values: native calls report a
/// system error code, COM calls a result code.
#[derive(Clone, Copy, Debug, PartialEq, Eq, Structural)]
pub enum Error {
    /// A platform query failed without a usable system error code.
    Generic,
    /// A native call failed; carries the system error code.
    WindowsInternal(i32),
    /// A COM call returned a failing result code.
    Hresult(i32),
    /// The class registry was unusable.
    ComponentRegistryError,
    /// The window class was already registered for this instance.
    ComponentAlreadyRegistered,
}

} // verus!
