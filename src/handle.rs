//! Opaque 64-bit handles used by the extension.

use vstd::prelude::*;

verus! {

/// Handle of a native device list. The value `0` is reserved as the null handle.
#[derive(Debug, Copy, Clone, PartialEq, Eq, Hash, Structural)]
pub struct XDevListMNDX(pub u64);

impl XDevListMNDX {
    pub fn from_raw(x: u64) -> (r: Self)
        ensures
            r.0 == x,
    {
        XDevListMNDX(x)
    }

    pub fn into_raw(self) -> (r: u64)
        ensures
            r == self.0,
    {
        self.0
    }

    pub fn is_null(self) -> (r: bool)
        ensures
            r == (self.0 == 0),
    {
        self.0 == 0
    }
}

impl Default for XDevListMNDX {
    fn default() -> (r: Self)
        ensures
            r.0 == 0,
    {
        XDevListMNDX(0)
    }
}

/// Identifier of one device within a list. It is a plain value: it is not
/// owned and has no destroy call of its own.
#[derive(Debug, Copy, Clone, PartialEq, Eq, PartialOrd, Ord, Hash, Structural)]
pub struct XDevIdMNDX(pub u64);

impl XDevIdMNDX {
    pub fn from_raw(x: u64) -> (r: Self)
        ensures
            r.0 == x,
    {
        XDevIdMNDX(x)
    }

    pub fn into_raw(self) -> (r: u64)
        ensures
            r == self.0,
    {
        self.0
    }
}

impl Default for XDevIdMNDX {
    fn default() -> (r: Self)
        ensures
            r.0 == 0,
    {
        XDevIdMNDX(0)
    }
}

} // verus!
