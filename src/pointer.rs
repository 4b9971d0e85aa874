use vstd::prelude::*;

verus! {

/// The pointer-sized argument of `SQLSetEnvAttr`, `SQLSetConnectAttr` and
/// `SQLSetStmtAttr`.
///
/// Integer attribute values travel through this argument by value: the
/// integer is read as an address and never dereferenced. `addr` holds that
/// address-sized integer; turning it into an actual pointer is left to the
/// foreign-call boundary.
#[derive(Debug, Clone, Copy, PartialEq, Eq, Structural)]
pub struct SqlPointer {
    pub addr: usize,
}

impl SqlPointer {
    /// The integer carried by the argument, read back.
    pub fn as_ulen(self) -> (r: usize)
        ensures
            r == self.addr,
    {
        self.addr
    }
}

} // verus!
