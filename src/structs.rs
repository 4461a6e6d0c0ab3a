//! Identity tags of the extension's chained structures.
//!
//! Every structure exchanged with the runtime begins with a type tag and a
//! pointer to the next structure of its chain. The tag of each kind is fixed by
//! the runtime's registry and must not change.

use vstd::prelude::*;

verus! {

pub const SYSTEM_XDEV_SPACE_PROPERTIES_TAG: i32 = 1000444001;

pub const CREATE_XDEV_LIST_INFO_TAG: i32 = 1000444002;

pub const GET_XDEV_INFO_TAG: i32 = 1000444003;

pub const XDEV_PROPERTIES_TAG: i32 = 1000444004;

pub const CREATE_XDEV_SPACE_INFO_TAG: i32 = 1000444005;

/// The kinds of chained structure that the extension defines.
#[derive(Debug, Copy, Clone, PartialEq, Eq, Structural)]
pub enum StructKind {
    /// Output: whether a system supports device spaces.
    SystemXDevSpaceProperties,
    /// Input: options for creating a device list.
    CreateXDevListInfo,
    /// Input: which device to read the properties of.
    GetXDevInfo,
    /// Output: a device's name, serial and capability flag.
    XDevProperties,
    /// Input: the device and offset to make a space from.
    CreateXDevSpaceInfo,
}

impl StructKind {
    pub open spec fn spec_tag(self) -> i32 {
        match self {
            StructKind::SystemXDevSpaceProperties => SYSTEM_XDEV_SPACE_PROPERTIES_TAG,
            StructKind::CreateXDevListInfo => CREATE_XDEV_LIST_INFO_TAG,
            StructKind::GetXDevInfo => GET_XDEV_INFO_TAG,
            StructKind::XDevProperties => XDEV_PROPERTIES_TAG,
            StructKind::CreateXDevSpaceInfo => CREATE_XDEV_SPACE_INFO_TAG,
        }
    }

    /// The registered type tag of the kind.
    pub fn tag(self) -> (r: i32)
        ensures
            r == self.spec_tag(),
    {
        match self {
            StructKind::SystemXDevSpaceProperties => SYSTEM_XDEV_SPACE_PROPERTIES_TAG,
            StructKind::CreateXDevListInfo => CREATE_XDEV_LIST_INFO_TAG,
            StructKind::GetXDevInfo => GET_XDEV_INFO_TAG,
            StructKind::XDevProperties => XDEV_PROPERTIES_TAG,
            StructKind::CreateXDevSpaceInfo => CREATE_XDEV_SPACE_INFO_TAG,
        }
    }
}

/// Distinct kinds carry distinct tags, so a tag names its kind.
pub proof fn lemma_tags_distinct(a: StructKind, b: StructKind)
    ensures
        a.spec_tag() == b.spec_tag() <==> a == b,
{
}

} // verus!
