use vstd::prelude::*;
use crate::handle::Param;
use crate::symbols::Export;

verus! {

/// Errors of the managed-runtime operations.
#[derive(Clone, Copy, Debug, PartialEq, Eq, Structural)]
pub enum RuntimeError {
    /// A handle or pointer parameter was null, or a required name was empty.
    NullHandle(Param),
    /// A string that must be non-empty was empty.
    EmptyString,
    /// A text parameter holds a NUL character and cannot cross the C boundary.
    InteriorNul(Param),
    /// The backend never exported the symbol that the operation needs.
    CapabilityUnavailable(Export),
    /// A native call that must not return null did so.
    UnexpectedNull(Export),
    /// A native call returned a string that is not valid UTF-8.
    InvalidText(Export),
    /// The reply handed back for a native call does not fit the call.
    UnexpectedReply(Export),
}

/// Errors of the hook engine.
#[derive(Clone, Copy, Debug, PartialEq, Eq, Structural)]
pub enum HookError {
    /// The address to patch was null.
    NullTarget,
    /// The replacement function was null.
    NullDetour,
    /// The inline-hook primitive reported a failure.
    Primitive,
    /// The primitive reported success but handed back a null trampoline.
    Null,
    /// A detach was asked of a hook that is not attached.
    AlreadyDetached,
}

/// Errors of locating the host's data folder and runtime library.
#[derive(Clone, Copy, Debug, PartialEq, Eq, Structural)]
pub enum PathError {
    /// No candidate of the dynamic-JIT backend exists.
    MonoNotFound,
    /// The executable's data folder does not exist or its name cannot be formed.
    DataPathNotFound,
    /// Neither backend's library exists.
    BackendNotFound,
}

} // verus!
