use vstd::prelude::*;

verus! {

/// The kinds of runtime-owned entities that a handle can refer to.
#[derive(Clone, Copy, Debug, PartialEq, Eq, Structural)]
pub enum HandleKind {
    Domain,
    Thread,
    Assembly,
    Image,
    Class,
    Property,
    Method,
    Object,
    String,
}

/// An opaque native address tagged with the kind of entity it refers to.
///
/// The memory behind it belongs to the managed runtime; a handle is a
/// borrowed, weak reference. A handle with a null address is never valid:
/// every accessor rejects it before any native call.
#[derive(Clone, Copy, Debug, PartialEq, Eq, Structural)]
pub struct Handle {
    pub kind: HandleKind,
    pub addr: usize,
}

impl Handle {
    pub open spec fn spec_is_null(self) -> bool {
        self.addr == 0
    }

    /// Wraps an address; a null address gives no handle.
    pub fn new(kind: HandleKind, addr: usize) -> (r: Option<Handle>)
        ensures
            addr == 0 ==> r.is_none(),
            addr != 0 ==> r == Some(Handle { kind, addr }),
    {
        if addr == 0 {
            None
        } else {
            Some(Handle { kind, addr })
        }
    }

    pub fn is_null(&self) -> (r: bool)
        ensures
            r == self.spec_is_null(),
    {
        self.addr == 0
    }
}

/// The parameter of an operation that failed validation.
#[derive(Clone, Copy, Debug, PartialEq, Eq, Structural)]
pub enum Param {
    Domain,
    Thread,
    Assembly,
    Class,
    Property,
    Method,
    Function,
    Name,
    Namespace,
    Directory,
    Text,
}

} // verus!
