//! Outcomes of the extension's single-call queries: creating a list, reading
//! its generation number and asking whether a system supports the extension.

use vstd::prelude::*;
use crate::handle::XDevListMNDX;
use crate::status::{check, succeeded, ExtensionError};

verus! {

/// Outcome of the list-creation call: the handle it wrote on success.
pub fn created_list(status: i32, handle: XDevListMNDX) -> (r: Result<XDevListMNDX, ExtensionError>)
    ensures
        succeeded(status) ==> r == Ok::<XDevListMNDX, ExtensionError>(handle),
        !succeeded(status) ==> r == Err::<XDevListMNDX, ExtensionError>(
            ExtensionError::NativeCallFailed(status),
        ),
{
    check(status)?;
    Ok(handle)
}

/// Outcome of the generation-number query: the number it wrote on success.
/// The number changes whenever the set of devices of the list has changed.
pub fn generation_from_query(status: i32, generation: u64) -> (r: Result<u64, ExtensionError>)
    ensures
        succeeded(status) ==> r == Ok::<u64, ExtensionError>(generation),
        !succeeded(status) ==> r == Err::<u64, ExtensionError>(
            ExtensionError::NativeCallFailed(status),
        ),
{
    check(status)?;
    Ok(generation)
}

/// Outcome of the system-properties query that carries the extension's
/// capability block: whether the system supports device spaces (a raw boolean,
/// zero is false), read only when the call succeeded.
pub fn supports_from_query(status: i32, supports_xdev_space: u32) -> (r: Result<bool, ExtensionError>)
    ensures
        succeeded(status) ==> r == Ok::<bool, ExtensionError>(supports_xdev_space != 0),
        !succeeded(status) ==> r == Err::<bool, ExtensionError>(
            ExtensionError::NativeCallFailed(status),
        ),
{
    check(status)?;
    Ok(supports_xdev_space != 0)
}

} // verus!
