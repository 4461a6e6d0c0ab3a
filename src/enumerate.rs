//! The two-call enumeration protocol and the decoding of a device's properties.
//!
//! A first call of the runtime's enumeration entry point with capacity 0
//! reports how many ids there are; a buffer of that many ids is then handed to
//! a second call, which reports how many it wrote.

use vstd::prelude::*;
use crate::handle::XDevIdMNDX;
use crate::status::{check, succeeded, ExtensionError};
use crate::text::{decode_text, decodes_to};

verus! {

/// What a conforming runtime reports for one call of the enumeration entry
/// point on a list holding `items`, given `capacity` slots: the count it
/// reports and the ids it writes into the first slots.
pub open spec fn enumerate_report(items: Seq<XDevIdMNDX>, capacity: nat) -> (nat, Seq<XDevIdMNDX>) {
    if capacity == 0 {
        (items.len(), Seq::empty())
    } else if capacity >= items.len() {
        (items.len(), items)
    } else {
        (capacity, items.take(capacity as int))
    }
}

/// Answers one call of the enumeration entry point as a conforming runtime
/// does, for a list holding `items`: writes the ids it reports into the first
/// slots of `out` (which has `capacity` slots), leaves the other slots as they
/// were, and returns the count it reports. This is the runtime's side of the
/// protocol, for standing in for a runtime.
pub fn answer_enumerate(items: &Vec<XDevIdMNDX>, capacity: u32, out: &mut Vec<XDevIdMNDX>) -> (r: u32)
    requires
        items@.len() <= u32::MAX,
        old(out)@.len() == capacity,
    ensures
        r == enumerate_report(items@, capacity as nat).0,
        final(out)@.len() == capacity,
        final(out)@.take(enumerate_report(items@, capacity as nat).1.len() as int)
            == enumerate_report(items@, capacity as nat).1,
        final(out)@.skip(enumerate_report(items@, capacity as nat).1.len() as int)
            == old(out)@.skip(enumerate_report(items@, capacity as nat).1.len() as int),
{
    if capacity == 0 {
        assert(out@.take(0) =~= Seq::<XDevIdMNDX>::empty());
        return items.len() as u32;
    }
    let n: usize = if (capacity as usize) < items.len() {
        capacity as usize
    } else {
        items.len()
    };
    let mut i: usize = 0;
    while i < n
        invariant
            0 <= i <= n,
            n <= items@.len(),
            n <= capacity,
            out@.len() == capacity,
            forall|j: int| 0 <= j < i ==> out@[j] == items@[j],
            forall|j: int| n <= j < capacity ==> out@[j] == old(out)@[j],
        decreases n - i,
    {
        out.set(i, items[i]);
        i = i + 1;
    }
    proof {
        let report = enumerate_report(items@, capacity as nat);
        assert(report.1.len() == n);
        assert(out@.take(n as int) =~= report.1);
        assert(out@.skip(n as int) =~= old(out)@.skip(n as int));
    }
    n as u32
}

/// Outcome of the first, sizing call: the capacity to allocate for the second.
pub fn capacity_from_count_query(status: i32, reported: u32) -> (r: Result<u32, ExtensionError>)
    ensures
        succeeded(status) ==> r == Ok::<u32, ExtensionError>(reported),
        !succeeded(status) ==> r == Err::<u32, ExtensionError>(
            ExtensionError::NativeCallFailed(status),
        ),
{
    check(status)?;
    Ok(reported)
}

/// A buffer of `capacity` null ids, to be filled by the second call.
pub fn id_buffer(capacity: u32) -> (r: Vec<XDevIdMNDX>)
    ensures
        r@.len() == capacity,
        forall|i: int| 0 <= i < capacity ==> (#[trigger] r@[i]).0 == 0,
{
    let mut out: Vec<XDevIdMNDX> = Vec::new();
    let mut i: u32 = 0;
    while i < capacity
        invariant
            0 <= i <= capacity,
            out@.len() == i,
            forall|j: int| 0 <= j < i ==> (#[trigger] out@[j]).0 == 0,
        decreases capacity - i,
    {
        out.push(XDevIdMNDX(0));
        i = i + 1;
    }
    out
}

/// Outcome of the second call, given `capacity` slots in `buffer`: the ids it
/// wrote. A reported count above the capacity breaks the runtime's contract and
/// is an error; the buffer is never read past what was written.
pub fn written_ids(status: i32, buffer: Vec<XDevIdMNDX>, capacity: u32, written: u32) -> (r: Result<
    Vec<XDevIdMNDX>,
    ExtensionError,
>)
    requires
        buffer@.len() == capacity,
    ensures
        r is Ok <==> succeeded(status) && written <= capacity,
        r matches Ok(v) ==> v@ == buffer@.take(written as int),
        !succeeded(status) ==> r == Err::<Vec<XDevIdMNDX>, ExtensionError>(
            ExtensionError::NativeCallFailed(status),
        ),
        succeeded(status) && written > capacity ==> r == Err::<Vec<XDevIdMNDX>, ExtensionError>(
            ExtensionError::CountExceedsCapacity(written, capacity),
        ),
{
    check(status)?;
    if written > capacity {
        return Err(ExtensionError::CountExceedsCapacity(written, capacity));
    }
    let mut out = buffer;
    out.truncate(written as usize);
    Ok(out)
}

/// The two-call protocol on a conforming runtime: a call with capacity 0
/// reports exactly the number of items and writes nothing; a call with at least
/// that capacity reports at most that many, never more than the first call
/// reported, and writes them all; a call with a smaller capacity reports exactly
/// that capacity and writes a prefix of the items.
pub proof fn lemma_two_call_enumeration(items: Seq<XDevIdMNDX>, capacity: nat)
    ensures
        enumerate_report(items, 0).0 == items.len(),
        enumerate_report(items, 0).1.len() == 0,
        capacity >= items.len() ==> enumerate_report(items, capacity).0 <= items.len()
            && enumerate_report(items, capacity).0 <= enumerate_report(items, 0).0
            && enumerate_report(items, capacity).1 == items,
        0 < capacity < items.len() ==> enumerate_report(items, capacity).0 == capacity
            && enumerate_report(items, capacity).1 == items.take(capacity as int),
{
}

/// Sizing with a first call and filling with a second call of the reported
/// capacity yields every item of a conforming runtime's list, in its order:
/// the ids that `written_ids` keeps from that second call are the list's.
pub proof fn lemma_enumeration_yields_items(items: Seq<XDevIdMNDX>, buffer: Seq<XDevIdMNDX>)
    requires
        buffer.len() == enumerate_report(items, 0).0,
        buffer.take(enumerate_report(items, buffer.len()).1.len() as int) == enumerate_report(
            items,
            buffer.len(),
        ).1,
    ensures
        enumerate_report(items, buffer.len()).0 == buffer.len(),
        buffer.take(enumerate_report(items, buffer.len()).0 as int) == items,
{
    if items.len() == 0 {
        assert(buffer.take(0) =~= items);
    }
}

/// A device's properties, as read from the runtime.
#[derive(Debug, PartialEq, Eq)]
pub struct XDevProperties {
    pub name: String,
    pub serial: String,
    pub can_create_space: bool,
}

/// Decodes the outcome of a device-properties query: its status, the two
/// null-terminated text buffers and the raw boolean (zero is false).
pub fn decode_properties(status: i32, name: &Vec<u8>, serial: &Vec<u8>, can_create_space: u32) -> (r:
    Result<XDevProperties, ExtensionError>)
    ensures
        !succeeded(status) ==> r == Err::<XDevProperties, ExtensionError>(
            ExtensionError::NativeCallFailed(status),
        ),
        r is Ok <==> succeeded(status) && (exists|t: Seq<char>| decodes_to(name@, t)) && (exists|
            t: Seq<char>,
        | decodes_to(serial@, t)),
        r matches Ok(p) ==> decodes_to(name@, p.name@) && decodes_to(serial@, p.serial@)
            && p.can_create_space == (can_create_space != 0),
        succeeded(status) && r is Err ==> r == Err::<XDevProperties, ExtensionError>(
            ExtensionError::InvalidText,
        ),
{
    check(status)?;
    let name = decode_text(name)?;
    let serial = decode_text(serial)?;
    Ok(XDevProperties { name, serial, can_create_space: can_create_space != 0 })
}

} // verus!
