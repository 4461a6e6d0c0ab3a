//! Shared ownership of a device list and the devices enumerated from it.
//!
//! `L` is whatever owns the native list handle (with the session it belongs
//! to) and releases it when dropped. Every clone of an `XDevList`, and every
//! `XDev` made from it, holds one shared reference to that owner, so the
//! native list is released exactly once, when the last of them is dropped.

use vstd::prelude::*;
use std::sync::Arc;
use crate::enumerate::{
    capacity_from_count_query, decode_properties, enumerate_report, id_buffer, written_ids,
    XDevProperties,
};
use crate::handle::{XDevIdMNDX, XDevListMNDX};
use crate::query::{created_list, generation_from_query};
use crate::table::{all_resolved, EntryPoint, XDevSpacesMNDXFunctions};
use crate::status::{succeeded, ExtensionError};
use crate::text::decodes_to;

verus! {

/// Relies on `Arc::clone`: the new pointer shares the allocation, so it refers
/// to the same value.
#[verifier::external_body]
fn arc_clone<L>(a: &Arc<L>) -> (r: Arc<L>)
    ensures
        *r == **a,
{
    Arc::clone(a)
}

/// `enumerate`, which stands for the runtime's enumeration entry point, acts as
/// a conforming runtime does on a list holding `items`: every call, given a
/// capacity and a buffer of that many slots, succeeds, reports the count of
/// `enumerate_report` and writes the ids it reports into the first slots.
pub open spec fn conforming_enumerate<FE>(enumerate: FE, items: Seq<XDevIdMNDX>) -> bool where
    FE: Fn(u32, Vec<XDevIdMNDX>) -> (i32, u32, Vec<XDevIdMNDX>),
 {
    forall|c: u32, b: Vec<XDevIdMNDX>, o: (i32, u32, Vec<XDevIdMNDX>)|
        #[trigger] enumerate.ensures((c, b), o) && b@.len() == c ==> {
            &&& succeeded(o.0)
            &&& o.1 == enumerate_report(items, c as nat).0
            &&& o.2@.take(enumerate_report(items, c as nat).1.len() as int) == enumerate_report(
                items,
                c as nat,
            ).1
        }
}

/// The error that decoding the outcome of a device-properties call gives:
/// its status when it failed, `InvalidText` when the name or the serial does
/// not decode, none otherwise.
pub open spec fn properties_error(o: (i32, Vec<u8>, Vec<u8>, u32)) -> Option<ExtensionError> {
    if !succeeded(o.0) {
        Some(ExtensionError::NativeCallFailed(o.0))
    } else if !((exists|t: Seq<char>| decodes_to(o.1@, t)) && (exists|t: Seq<char>|
        decodes_to(o.2@, t))) {
        Some(ExtensionError::InvalidText)
    } else {
        None
    }
}

/// `properties`, which stands for the runtime's device-properties entry
/// point, always succeeds with a name and a serial that decode.
pub open spec fn conforming_properties<FP>(properties: FP) -> bool where
    FP: Fn(XDevIdMNDX) -> (i32, Vec<u8>, Vec<u8>, u32),
 {
    forall|id: XDevIdMNDX, o: (i32, Vec<u8>, Vec<u8>, u32)|
        #[trigger] properties.ensures((id,), o) ==> properties_error(o) is None
}

/// `r` is what reading the properties of `ids` with `properties` gives: the
/// devices of `owner`'s list with those ids, in order, each with properties
/// that a call on its id returned; or the error that the outcome of a call on
/// one of the ids gives.
pub open spec fn properties_stage<L, FP>(
    properties: FP,
    owner: L,
    ids: Seq<XDevIdMNDX>,
    r: Result<Vec<XDev<L>>, ExtensionError>,
) -> bool where FP: Fn(XDevIdMNDX) -> (i32, Vec<u8>, Vec<u8>, u32) {
    match r {
        Ok(xs) => {
            &&& xs@.len() == ids.len()
            &&& forall|i: int|
                0 <= i < xs@.len() ==> {
                    &&& (#[trigger] xs@[i]).spec_list() == owner
                    &&& xs@[i].spec_id() == ids[i]
                    &&& properties_outcome(
                        properties,
                        ids[i],
                        xs@[i].spec_name(),
                        xs@[i].spec_serial(),
                        xs@[i].spec_can_create_space(),
                    )
                }
        },
        Err(e) => exists|k: int, o: (i32, Vec<u8>, Vec<u8>, u32)|
            0 <= k < ids.len() && #[trigger] properties.ensures((ids[k],), o) && properties_error(o)
                == Some(e),
    }
}

/// `r` is what the two-call protocol on `enumerate` followed by reading each
/// device's properties with `properties` gives, stopping at the first error: a
/// sizing call with capacity 0 was made; if it failed, its status is the
/// error; otherwise a call with a buffer of exactly the reported count of null
/// slots was made; if it failed, its status is the error; if it reported more
/// than that count, the error says so; otherwise the properties of the ids it
/// wrote, up to the count it reported, give `r`.
pub open spec fn enumeration_result<L, FE, FP>(
    enumerate: FE,
    properties: FP,
    owner: L,
    r: Result<Vec<XDev<L>>, ExtensionError>,
) -> bool where
    FE: Fn(u32, Vec<XDevIdMNDX>) -> (i32, u32, Vec<XDevIdMNDX>),
    FP: Fn(XDevIdMNDX) -> (i32, Vec<u8>, Vec<u8>, u32),
 {
    exists|empty: Vec<XDevIdMNDX>, first: (i32, u32, Vec<XDevIdMNDX>)|
        {
            &&& empty@.len() == 0
            &&& #[trigger] enumerate.ensures((0u32, empty), first)
            &&& if !succeeded(first.0) {
                r == Err::<Vec<XDev<L>>, ExtensionError>(ExtensionError::NativeCallFailed(first.0))
            } else {
                exists|nulls: Vec<XDevIdMNDX>, second: (i32, u32, Vec<XDevIdMNDX>)|
                    {
                        &&& nulls@.len() == first.1
                        &&& forall|i: int| 0 <= i < first.1 ==> (#[trigger] nulls@[i]).0 == 0
                        &&& #[trigger] enumerate.ensures((first.1, nulls), second)
                        &&& if !succeeded(second.0) {
                            r == Err::<Vec<XDev<L>>, ExtensionError>(
                                ExtensionError::NativeCallFailed(second.0),
                            )
                        } else if second.1 > first.1 {
                            r == Err::<Vec<XDev<L>>, ExtensionError>(
                                ExtensionError::CountExceedsCapacity(second.1, first.1),
                            )
                        } else {
                            properties_stage(
                                properties,
                                owner,
                                second.2@.take(second.1 as int),
                                r,
                            )
                        }
                    }
            }
        }
}

/// A call of `properties`, which stands for the runtime's device-properties
/// entry point, on `id` can succeed with the name `name`, the serial `serial`
/// and the capability flag `can_create_space`.
pub open spec fn properties_outcome<FP>(
    properties: FP,
    id: XDevIdMNDX,
    name: Seq<char>,
    serial: Seq<char>,
    can_create_space: bool,
) -> bool where FP: Fn(XDevIdMNDX) -> (i32, Vec<u8>, Vec<u8>, u32) {
    exists|o: (i32, Vec<u8>, Vec<u8>, u32)|
        #[trigger] properties.ensures((id,), o) && succeeded(o.0) && decodes_to(o.1@, name)
            && decodes_to(o.2@, serial) && can_create_space == (o.3 != 0)
}

/// `l` can be the owner of a list acquired with `create` and `owner` from the
/// resolution outcomes `resolved`: the table holds the resolved addresses, a
/// call of `create` on it succeeded, and `owner` made `l` from the handle that
/// call wrote and the table.
pub open spec fn acquire_outcome<L, FC, FO>(
    resolved: Seq<Option<usize>>,
    create: FC,
    owner: FO,
    l: L,
) -> bool where
    FC: FnOnce(XDevSpacesMNDXFunctions) -> (i32, XDevListMNDX),
    FO: FnOnce(XDevListMNDX, XDevSpacesMNDXFunctions) -> L,
 {
    exists|t: XDevSpacesMNDXFunctions, o: (i32, XDevListMNDX)|
        {
            &&& #[trigger] create.ensures((t,), o)
            &&& succeeded(o.0)
            &&& forall|e: EntryPoint| resolved[e.index()] == Some(#[trigger] t.entry(e))
            &&& #[trigger] owner.ensures((o.1, t), l)
        }
}

/// A shared handle to a native device list.
pub struct XDevList<L> {
    inner: Arc<L>,
}

impl<L> XDevList<L> {
    /// The owner of the native list that this handle shares.
    pub closed spec fn spec_owner(&self) -> L {
        *self.inner
    }

    /// Takes ownership of a freshly created native list.
    pub fn new(owner: L) -> (r: Self)
        ensures
            r.spec_owner() == owner,
    {
        XDevList { inner: Arc::new(owner) }
    }

    /// Acquires a device list: builds the entry-point table from the outcome of
    /// resolving each entry point (as `XDevSpacesMNDXFunctions::load` takes
    /// it), makes the native list with `create`, which stands for the runtime's
    /// list-creation entry point and returns a status and the handle it wrote,
    /// and hands the new handle with the table to `owner`, which takes charge of
    /// releasing it. `create` is not called when an entry point is missing.
    pub fn acquire<FC, FO>(resolved: &[Option<usize>; 6], create: FC, owner: FO) -> (r: Result<
        Self,
        ExtensionError,
    >) where
        FC: FnOnce(XDevSpacesMNDXFunctions) -> (i32, XDevListMNDX),
        FO: FnOnce(XDevListMNDX, XDevSpacesMNDXFunctions) -> L,

        requires
            forall|t: XDevSpacesMNDXFunctions| #[trigger] create.requires((t,)),
            forall|h: XDevListMNDX, t: XDevSpacesMNDXFunctions| #[trigger] owner.requires((h, t)),
        ensures
            all_resolved(resolved@) && (forall|t: XDevSpacesMNDXFunctions, o: (i32, XDevListMNDX)|
                #[trigger] create.ensures((t,), o) ==> succeeded(o.0)) ==> r is Ok,
            !all_resolved(resolved@) ==> exists|e: EntryPoint|
                r == Err::<Self, ExtensionError>(ExtensionError::MissingEntryPoint(e))
                && resolved@[e.index()] is None
                && forall|j: int| 0 <= j < e.index() ==> (#[trigger] resolved@[j]) is Some,
            r matches Ok(list) ==> all_resolved(resolved@) && acquire_outcome(
                resolved@,
                create,
                owner,
                list.spec_owner(),
            ),
            all_resolved(resolved@) && r is Err ==> exists|
                t: XDevSpacesMNDXFunctions,
                o: (i32, XDevListMNDX),
            |
                {
                    &&& #[trigger] create.ensures((t,), o)
                    &&& forall|e: EntryPoint| resolved@[e.index()] == Some(#[trigger] t.entry(e))
                    &&& !succeeded(o.0)
                    &&& r == Err::<Self, ExtensionError>(ExtensionError::NativeCallFailed(o.0))
                },
    {
        let funcs = XDevSpacesMNDXFunctions::load(resolved)?;
        let o = create(funcs);
        let ghost o_g = o;
        assert(create.ensures((funcs,), o_g));
        let handle = created_list(o.0, o.1)?;
        let l = owner(handle, funcs);
        let ghost l_g = l;
        let list = XDevList::new(l);
        assert(owner.ensures((o_g.1, funcs), l_g));
        assert(acquire_outcome(resolved@, create, owner, list.spec_owner())) by {
            assert(list.spec_owner() == l_g);
        }
        Ok(list)
    }

    /// Reads the list's generation number with `query`, which stands for the
    /// runtime's generation-number entry point: it is given the owner of the
    /// list and returns a status and the number it wrote. The number changes
    /// whenever the set of devices has changed; it can be read at any time,
    /// before any enumeration.
    pub fn get_generation<FG>(&self, query: FG) -> (r: Result<u64, ExtensionError>) where
        FG: FnOnce(&L) -> (i32, u64),

        requires
            forall|l: &L| #[trigger] query.requires((l,)),
        ensures
            exists|o: (i32, u64)|
                {
                    &&& #[trigger] query.ensures((&self.spec_owner(),), o)
                    &&& r == if succeeded(o.0) {
                        Ok::<u64, ExtensionError>(o.1)
                    } else {
                        Err::<u64, ExtensionError>(ExtensionError::NativeCallFailed(o.0))
                    }
                },
    {
        let o = query(&*self.inner);
        assert(query.ensures((&self.spec_owner(),), o));
        generation_from_query(o.0, o.1)
    }

    /// The owner of the native list.
    pub fn owner(&self) -> (r: &L)
        ensures
            *r == self.spec_owner(),
    {
        &*self.inner
    }

    /// Enumerates the devices of the list: sizes the id buffer with a first
    /// call of `enumerate`, fills it with a second, then reads each device's
    /// properties with `properties`, in the order of the ids. The first failing
    /// step ends the enumeration with its error. On a conforming runtime it
    /// succeeds with one device per item of the list, in its order.
    pub fn enumerate_xdevs<FE, FP>(&self, enumerate: FE, properties: FP) -> (r: Result<
        Vec<XDev<L>>,
        ExtensionError,
    >) where
        FE: Fn(u32, Vec<XDevIdMNDX>) -> (i32, u32, Vec<XDevIdMNDX>),
        FP: Fn(XDevIdMNDX) -> (i32, Vec<u8>, Vec<u8>, u32),

        requires
            forall|c: u32, b: Vec<XDevIdMNDX>| #[trigger] enumerate.requires((c, b)),
            forall|c: u32, b: Vec<XDevIdMNDX>, o: (i32, u32, Vec<XDevIdMNDX>)|
                #[trigger] enumerate.ensures((c, b), o) ==> o.2@.len() == b@.len(),
            forall|id: XDevIdMNDX| #[trigger] properties.requires((id,)),
        ensures
            enumeration_result(enumerate, properties, self.spec_owner(), r),
            forall|items: Seq<XDevIdMNDX>|
                #[trigger] conforming_enumerate(enumerate, items) && conforming_properties(
                    properties,
                ) ==> (r matches Ok(xs) && xs@.len() == items.len() && forall|i: int|
                    0 <= i < items.len() ==> (#[trigger] xs@[i]).spec_id() == items[i]),
    {
        let empty: Vec<XDevIdMNDX> = Vec::new();
        let ghost empty_g = empty;
        let first = enumerate(0, empty);
        let ghost first_g = first;
        assert(enumerate.ensures((0u32, empty_g), first_g));
        let (status, reported, _) = first;
        let capacity = match capacity_from_count_query(status, reported) {
            Ok(c) => c,
            Err(e) => {
                assert(enumeration_result(enumerate, properties, self.spec_owner(), Err(e)));
                return Err(e);
            },
        };
        let nulls = id_buffer(capacity);
        let ghost nulls_g = nulls;
        let second = enumerate(capacity, nulls);
        let ghost second_g = second;
        assert(enumerate.ensures((first_g.1, nulls_g), second_g));
        let (status, written, filled) = second;
        let ids = match written_ids(status, filled, capacity, written) {
            Ok(v) => v,
            Err(e) => {
                proof {
                    assert forall|items: Seq<XDevIdMNDX>|
                        !(#[trigger] conforming_enumerate(enumerate, items)) by {
                        if conforming_enumerate(enumerate, items) {
                            assert(enumerate.ensures((0u32, empty_g), first_g));
                            if capacity == 0 {
                                assert(second_g.1 == 0);
                            }
                        }
                    }
                }
                assert(enumeration_result(enumerate, properties, self.spec_owner(), Err(e)));
                return Err(e);
            },
        };
        let ghost ids_g = ids@;
        assert(ids_g == second_g.2@.take(second_g.1 as int));
        let mut props: Vec<XDevProperties> = Vec::new();
        let mut i: usize = 0;
        while i < ids.len()
            invariant
                0 <= i <= ids@.len(),
                props@.len() == i,
                forall|id: XDevIdMNDX| #[trigger] properties.requires((id,)),
                empty_g@.len() == 0,
                enumerate.ensures((0u32, empty_g), first_g),
                succeeded(first_g.0),
                nulls_g@.len() == first_g.1,
                forall|j: int| 0 <= j < first_g.1 ==> (#[trigger] nulls_g@[j]).0 == 0,
                enumerate.ensures((first_g.1, nulls_g), second_g),
                succeeded(second_g.0),
                second_g.1 <= first_g.1,
                ids@ == second_g.2@.take(second_g.1 as int),
                forall|k: int|
                    0 <= k < i ==> properties_outcome(
                        properties,
                        ids@[k],
                        (#[trigger] props@[k]).name@,
                        props@[k].serial@,
                        props@[k].can_create_space,
                    ),
            decreases ids@.len() - i,
        {
            let o = properties(ids[i]);
            let ghost o_g = o;
            let (status, name, serial, can_create_space) = o;
            assert(properties.ensures((ids@[i as int],), o_g));
            let p = match decode_properties(status, &name, &serial, can_create_space) {
                Ok(p) => p,
                Err(e) => {
                    proof {
                        assert(properties_error(o_g) == Some(e));
                        assert(properties_stage(properties, self.spec_owner(), ids@, Err(e)));
                        assert(!conforming_properties(properties));
                    }
                    assert(enumeration_result(enumerate, properties, self.spec_owner(), Err(e)));
                    return Err(e);
                },
            };
            props.push(p);
            i = i + 1;
        }
        let xs = self.xdevs(&ids, &props);
        let r = Ok(xs);
        proof {
            assert(properties_stage(properties, self.spec_owner(), ids@, r));
            assert forall|items: Seq<XDevIdMNDX>|
                #[trigger] conforming_enumerate(enumerate, items) implies ids@ == items by {
                if items.len() == 0 {
                    assert(ids@ =~= items);
                }
            }
        }
        assert(enumeration_result(enumerate, properties, self.spec_owner(), r));
        r
    }

    /// A device of this list, with the properties read for it.
    pub fn xdev(&self, id: XDevIdMNDX, props: XDevProperties) -> (r: XDev<L>)
        ensures
            r.spec_list() == self.spec_owner(),
            r.spec_id() == id,
            r.spec_name() == props.name@,
            r.spec_serial() == props.serial@,
            r.spec_can_create_space() == props.can_create_space,
    {
        XDev {
            list: arc_clone(&self.inner),
            id,
            name: props.name,
            serial: props.serial,
            can_create_space: props.can_create_space,
        }
    }

    /// The devices of this list, one per id with the properties read for it,
    /// in the order of the ids.
    pub fn xdevs(&self, ids: &Vec<XDevIdMNDX>, props: &Vec<XDevProperties>) -> (r: Vec<XDev<L>>)
        requires
            ids@.len() == props@.len(),
        ensures
            r@.len() == ids@.len(),
            forall|i: int|
                0 <= i < r@.len() ==> {
                    &&& (#[trigger] r@[i]).spec_list() == self.spec_owner()
                    &&& r@[i].spec_id() == ids@[i]
                    &&& r@[i].spec_name() == props@[i].name@
                    &&& r@[i].spec_serial() == props@[i].serial@
                    &&& r@[i].spec_can_create_space() == props@[i].can_create_space
                },
    {
        let mut out: Vec<XDev<L>> = Vec::new();
        let mut i: usize = 0;
        while i < ids.len()
            invariant
                ids@.len() == props@.len(),
                0 <= i <= ids@.len(),
                out@.len() == i,
                forall|k: int|
                    0 <= k < i ==> {
                        &&& (#[trigger] out@[k]).spec_list() == self.spec_owner()
                        &&& out@[k].spec_id() == ids@[k]
                        &&& out@[k].spec_name() == props@[k].name@
                        &&& out@[k].spec_serial() == props@[k].serial@
                        &&& out@[k].spec_can_create_space() == props@[k].can_create_space
                    },
            decreases ids@.len() - i,
        {
            let p = XDevProperties {
                name: props[i].name.clone(),
                serial: props[i].serial.clone(),
                can_create_space: props[i].can_create_space,
            };
            out.push(self.xdev(ids[i], p));
            i = i + 1;
        }
        out
    }
}

impl<L> Clone for XDevList<L> {
    /// One more shared handle to the same list.
    fn clone(&self) -> (r: Self)
        ensures
            r.spec_owner() == self.spec_owner(),
    {
        XDevList { inner: arc_clone(&self.inner) }
    }
}

/// A device of a list: its id and the properties read for it, with a shared
/// reference to the list, which a space made from the device needs.
pub struct XDev<L> {
    list: Arc<L>,
    id: XDevIdMNDX,
    name: String,
    serial: String,
    can_create_space: bool,
}

impl<L> XDev<L> {
    pub closed spec fn spec_list(&self) -> L {
        *self.list
    }

    pub closed spec fn spec_id(&self) -> XDevIdMNDX {
        self.id
    }

    pub closed spec fn spec_name(&self) -> Seq<char> {
        self.name@
    }

    pub closed spec fn spec_serial(&self) -> Seq<char> {
        self.serial@
    }

    pub closed spec fn spec_can_create_space(&self) -> bool {
        self.can_create_space
    }

    /// The owner of the list the device belongs to.
    pub fn list(&self) -> (r: &L)
        ensures
            *r == self.spec_list(),
    {
        &*self.list
    }

    pub fn id(&self) -> (r: XDevIdMNDX)
        ensures
            r == self.spec_id(),
    {
        self.id
    }

    pub fn name(&self) -> (r: &str)
        ensures
            r@ == self.spec_name(),
    {
        self.name.as_str()
    }

    pub fn serial(&self) -> (r: &str)
        ensures
            r@ == self.spec_serial(),
    {
        self.serial.as_str()
    }

    /// Whether a space can be made from the device.
    pub fn can_create_space(&self) -> (r: bool)
        ensures
            r == self.spec_can_create_space(),
    {
        self.can_create_space
    }

    /// Makes a space that follows the device with `create`, which stands for
    /// the runtime's space-creation entry point: it is given the owner of the
    /// device's list and the device's id, and returns a status and the space.
    /// Only a device that supports spaces may be asked: calling this otherwise
    /// is a logic error of the caller, who had the flag at hand.
    pub fn create_space<S, FS>(&self, create: FS) -> (r: Result<S, ExtensionError>) where
        FS: FnOnce(&L, XDevIdMNDX) -> (i32, S),

        requires
            self.spec_can_create_space(),
            forall|l: &L, id: XDevIdMNDX| #[trigger] create.requires((l, id)),
        ensures
            exists|o: (i32, S)|
                {
                    &&& #[trigger] create.ensures((&self.spec_list(), self.spec_id()), o)
                    &&& r == if succeeded(o.0) {
                        Ok::<S, ExtensionError>(o.1)
                    } else {
                        Err::<S, ExtensionError>(ExtensionError::NativeCallFailed(o.0))
                    }
                },
    {
        let o = create(&*self.list, self.id);
        let ghost o_g = o;
        assert(create.ensures((&self.spec_list(), self.spec_id()), o_g));
        let (status, space) = o;
        if status >= 0 {
            Ok(space)
        } else {
            Err(ExtensionError::NativeCallFailed(status))
        }
    }
}

} // verus!
