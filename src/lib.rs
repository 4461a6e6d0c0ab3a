//! Safe core of a binding to the `XR_MNDX_xdev_space` runtime extension.
//!
//! The library holds the protocol's decisions over plain values: opaque
//! handles, status codes, the extension's entry-point table, the two-call
//! enumeration protocol, the decoding of item properties and the shared
//! ownership of a device list. The native calls themselves are made by the
//! caller, who hands their outcomes to these functions.

pub mod handle;
pub mod status;
pub mod table;
pub mod text;
pub mod enumerate;
pub mod list;
pub mod query;
pub mod structs;
