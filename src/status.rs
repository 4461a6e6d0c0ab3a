//! Native status codes and the library's error type.

use vstd::prelude::*;
use crate::table::EntryPoint;

verus! {

/// A native status code reports success when it is non-negative.
pub open spec fn succeeded(code: i32) -> bool {
    code >= 0
}

/// Splits a native status code into success (the code itself, which may carry
/// auxiliary information) and failure.
pub fn cvt(x: i32) -> (r: Result<i32, i32>)
    ensures
        r == (if succeeded(x) { Ok::<i32, i32>(x) } else { Err::<i32, i32>(x) }),
{
    if x >= 0 {
        Ok(x)
    } else {
        Err(x)
    }
}

/// What can go wrong in the extension's operations.
#[derive(Debug, Copy, Clone, PartialEq, Eq, Structural)]
pub enum ExtensionError {
    /// The runtime has no function of this name: the extension is absent or
    /// not enabled on the instance.
    MissingEntryPoint(EntryPoint),
    /// A native call returned this negative status code.
    NativeCallFailed(i32),
    /// A name or serial returned by the runtime is not valid text.
    InvalidText,
    /// The second call of an enumeration reported more items than the
    /// capacity it was given: the reported count and that capacity.
    CountExceedsCapacity(u32, u32),
}

/// Maps a native status code to the library's result: `Ok` with the code on
/// success, `NativeCallFailed` with the code on failure.
pub fn check(x: i32) -> (r: Result<i32, ExtensionError>)
    ensures
        r == (if succeeded(x) {
            Ok::<i32, ExtensionError>(x)
        } else {
            Err::<i32, ExtensionError>(ExtensionError::NativeCallFailed(x))
        }),
{
    match cvt(x) {
        Ok(c) => Ok(c),
        Err(c) => Err(ExtensionError::NativeCallFailed(c)),
    }
}

} // verus!
