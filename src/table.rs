//! The extension's table of entry points, resolved by name at run time.

use vstd::prelude::*;
use crate::status::ExtensionError;

verus! {

/// One of the six entry points of the extension.
#[derive(Debug, Copy, Clone, PartialEq, Eq, Structural)]
pub enum EntryPoint {
    CreateXDevList,
    GetXDevListGenerationNumber,
    EnumerateXDevs,
    GetXDevProperties,
    DestroyXDevList,
    CreateXDevSpace,
}

/// Number of entry points in the table.
pub const ENTRY_POINT_COUNT: usize = 6;

impl EntryPoint {
    /// Position of the entry point in the order of resolution.
    pub open spec fn index(self) -> int {
        match self {
            EntryPoint::CreateXDevList => 0,
            EntryPoint::GetXDevListGenerationNumber => 1,
            EntryPoint::EnumerateXDevs => 2,
            EntryPoint::GetXDevProperties => 3,
            EntryPoint::DestroyXDevList => 4,
            EntryPoint::CreateXDevSpace => 5,
        }
    }

    /// The name under which the runtime resolves the entry point.
    pub open spec fn spec_name(self) -> Seq<char> {
        match self {
            EntryPoint::CreateXDevList => "xrCreateXDevListMNDX"@,
            EntryPoint::GetXDevListGenerationNumber => "xrGetXDevListGenerationNumberMNDX"@,
            EntryPoint::EnumerateXDevs => "xrEnumerateXDevsMNDX"@,
            EntryPoint::GetXDevProperties => "xrGetXDevPropertiesMNDX"@,
            EntryPoint::DestroyXDevList => "xrDestroyXDevListMNDX"@,
            EntryPoint::CreateXDevSpace => "xrCreateXDevSpaceMNDX"@,
        }
    }

    /// The entry point at position `i` in the order of resolution.
    pub fn from_index(i: usize) -> (r: EntryPoint)
        requires
            i < ENTRY_POINT_COUNT,
        ensures
            r.index() == i,
    {
        if i == 0 {
            EntryPoint::CreateXDevList
        } else if i == 1 {
            EntryPoint::GetXDevListGenerationNumber
        } else if i == 2 {
            EntryPoint::EnumerateXDevs
        } else if i == 3 {
            EntryPoint::GetXDevProperties
        } else if i == 4 {
            EntryPoint::DestroyXDevList
        } else {
            EntryPoint::CreateXDevSpace
        }
    }

    /// The name under which the runtime resolves the entry point.
    pub fn name(self) -> (r: &'static str)
        ensures
            r@ == self.spec_name(),
    {
        match self {
            EntryPoint::CreateXDevList => "xrCreateXDevListMNDX",
            EntryPoint::GetXDevListGenerationNumber => "xrGetXDevListGenerationNumberMNDX",
            EntryPoint::EnumerateXDevs => "xrEnumerateXDevsMNDX",
            EntryPoint::GetXDevProperties => "xrGetXDevPropertiesMNDX",
            EntryPoint::DestroyXDevList => "xrDestroyXDevListMNDX",
            EntryPoint::CreateXDevSpace => "xrCreateXDevSpaceMNDX",
        }
    }
}

/// The resolved addresses of the extension's six entry points. The table is a
/// plain value: it owns nothing and may be copied freely.
#[derive(Debug, Copy, Clone, PartialEq, Eq, Structural)]
pub struct XDevSpacesMNDXFunctions {
    pub create_xdev_list: usize,
    pub get_xdev_list_generation_number: usize,
    pub enumerate_xdevs: usize,
    pub get_xdev_properties: usize,
    pub destroy_xdev_list: usize,
    pub create_xdev_space: usize,
}

/// The resolution outcomes of every entry point, in the order of resolution,
/// are all present.
pub open spec fn all_resolved(resolved: Seq<Option<usize>>) -> bool {
    forall|i: int| 0 <= i < resolved.len() ==> (#[trigger] resolved[i]) is Some
}

impl XDevSpacesMNDXFunctions {
    /// Address of one entry point in the table.
    pub open spec fn entry(self, e: EntryPoint) -> usize {
        match e {
            EntryPoint::CreateXDevList => self.create_xdev_list,
            EntryPoint::GetXDevListGenerationNumber => self.get_xdev_list_generation_number,
            EntryPoint::EnumerateXDevs => self.enumerate_xdevs,
            EntryPoint::GetXDevProperties => self.get_xdev_properties,
            EntryPoint::DestroyXDevList => self.destroy_xdev_list,
            EntryPoint::CreateXDevSpace => self.create_xdev_space,
        }
    }

    /// Address of one entry point in the table.
    pub fn get(&self, e: EntryPoint) -> (r: usize)
        ensures
            r == self.entry(e),
    {
        match e {
            EntryPoint::CreateXDevList => self.create_xdev_list,
            EntryPoint::GetXDevListGenerationNumber => self.get_xdev_list_generation_number,
            EntryPoint::EnumerateXDevs => self.enumerate_xdevs,
            EntryPoint::GetXDevProperties => self.get_xdev_properties,
            EntryPoint::DestroyXDevList => self.destroy_xdev_list,
            EntryPoint::CreateXDevSpace => self.create_xdev_space,
        }
    }

    /// Builds the table from the outcome of resolving each entry point by
    /// name, given in the order of `EntryPoint::index` (`None`: the runtime
    /// has no such function). The table is built whole or not at all: the
    /// first entry point that did not resolve is reported.
    pub fn load(resolved: &[Option<usize>; 6]) -> (r: Result<Self, ExtensionError>)
        ensures
            r is Ok <==> all_resolved(resolved@),
            r matches Ok(t) ==> forall|e: EntryPoint|
                resolved@[e.index()] == Some(#[trigger] t.entry(e)),
            r matches Err(err) ==> exists|e: EntryPoint|
                err == ExtensionError::MissingEntryPoint(e)
                && resolved@[e.index()] is None
                && forall|j: int| 0 <= j < e.index() ==> (#[trigger] resolved@[j]) is Some,
    {
        let mut i: usize = 0;
        while i < ENTRY_POINT_COUNT
            invariant
                0 <= i <= ENTRY_POINT_COUNT,
                resolved@.len() == ENTRY_POINT_COUNT,
                forall|j: int| 0 <= j < i ==> (#[trigger] resolved@[j]) is Some,
            decreases ENTRY_POINT_COUNT - i,
        {
            if resolved[i].is_none() {
                let e = EntryPoint::from_index(i);
                return Err(ExtensionError::MissingEntryPoint(e));
            }
            i = i + 1;
        }
        Ok(XDevSpacesMNDXFunctions {
            create_xdev_list: resolved[0].unwrap(),
            get_xdev_list_generation_number: resolved[1].unwrap(),
            enumerate_xdevs: resolved[2].unwrap(),
            get_xdev_properties: resolved[3].unwrap(),
            destroy_xdev_list: resolved[4].unwrap(),
            create_xdev_space: resolved[5].unwrap(),
        })
    }
}

} // verus!
