use std::cell::Cell;
use std::rc::Rc;

use xdev_spaces::enumerate::{
    answer_enumerate, capacity_from_count_query, decode_properties, id_buffer, written_ids,
    XDevProperties,
};
use xdev_spaces::handle::{XDevIdMNDX, XDevListMNDX};
use xdev_spaces::list::XDevList;
use xdev_spaces::query::{created_list, generation_from_query, supports_from_query};
use xdev_spaces::status::{check, cvt, ExtensionError};
use xdev_spaces::structs::StructKind;
use xdev_spaces::table::{EntryPoint, XDevSpacesMNDXFunctions};
use xdev_spaces::text::{decode_text, TEXT_FIELD_SIZE};

const ALL: [EntryPoint; 6] = [
    EntryPoint::CreateXDevList,
    EntryPoint::GetXDevListGenerationNumber,
    EntryPoint::EnumerateXDevs,
    EntryPoint::GetXDevProperties,
    EntryPoint::DestroyXDevList,
    EntryPoint::CreateXDevSpace,
];

fn text_buffer(s: &[u8]) -> Vec<u8> {
    let mut b = vec![0u8; TEXT_FIELD_SIZE];
    b[..s.len()].copy_from_slice(s);
    b
}

fn props(name: &str, serial: &str, can: bool) -> XDevProperties {
    XDevProperties { name: name.to_string(), serial: serial.to_string(), can_create_space: can }
}

struct DropCounter(Rc<Cell<usize>>);

impl Drop for DropCounter {
    fn drop(&mut self) {
        self.0.set(self.0.get() + 1);
    }
}

#[test]
fn handles_round_trip_and_default_to_null() {
    assert_eq!(XDevListMNDX::from_raw(42).into_raw(), 42);
    assert_eq!(XDevIdMNDX::from_raw(7).into_raw(), 7);
    assert_eq!(XDevListMNDX::default(), XDevListMNDX(0));
    assert_eq!(XDevIdMNDX::default(), XDevIdMNDX(0));
    assert!(XDevListMNDX::default().is_null());
    assert!(!XDevListMNDX::from_raw(1).is_null());
}

#[test]
fn status_codes_split_on_sign() {
    assert_eq!(cvt(0), Ok(0));
    assert_eq!(cvt(3), Ok(3));
    assert_eq!(cvt(-1), Err(-1));
    assert_eq!(check(5), Ok(5));
    assert_eq!(check(-12), Err(ExtensionError::NativeCallFailed(-12)));
}

#[test]
fn load_with_every_entry_point_resolved() {
    let resolved = [Some(10), Some(11), Some(12), Some(13), Some(14), Some(15)];
    let t = XDevSpacesMNDXFunctions::load(&resolved).unwrap();
    assert_eq!(t.create_xdev_list, 10);
    assert_eq!(t.get_xdev_list_generation_number, 11);
    assert_eq!(t.enumerate_xdevs, 12);
    assert_eq!(t.get_xdev_properties, 13);
    assert_eq!(t.destroy_xdev_list, 14);
    assert_eq!(t.create_xdev_space, 15);
    assert_eq!(t.get(EntryPoint::DestroyXDevList), 14);
}

#[test]
fn load_reports_exactly_the_missing_entry_point() {
    for (i, e) in ALL.iter().enumerate() {
        let mut resolved = [Some(1usize); 6];
        resolved[i] = None;
        assert_eq!(
            XDevSpacesMNDXFunctions::load(&resolved),
            Err(ExtensionError::MissingEntryPoint(*e))
        );
        assert_eq!(EntryPoint::from_index(i), *e);
    }
    let resolved = [Some(1), None, Some(3), None, Some(5), Some(6)];
    assert_eq!(
        XDevSpacesMNDXFunctions::load(&resolved),
        Err(ExtensionError::MissingEntryPoint(EntryPoint::GetXDevListGenerationNumber))
    );
}

#[test]
fn entry_point_names_are_verbatim() {
    let names: Vec<&str> = ALL.iter().map(|e| e.name()).collect();
    assert_eq!(
        names,
        vec![
            "xrCreateXDevListMNDX",
            "xrGetXDevListGenerationNumberMNDX",
            "xrEnumerateXDevsMNDX",
            "xrGetXDevPropertiesMNDX",
            "xrDestroyXDevListMNDX",
            "xrCreateXDevSpaceMNDX",
        ]
    );
}

#[test]
fn struct_tags_are_the_registered_values() {
    assert_eq!(StructKind::SystemXDevSpaceProperties.tag(), 1000444001);
    assert_eq!(StructKind::CreateXDevListInfo.tag(), 1000444002);
    assert_eq!(StructKind::GetXDevInfo.tag(), 1000444003);
    assert_eq!(StructKind::XDevProperties.tag(), 1000444004);
    assert_eq!(StructKind::CreateXDevSpaceInfo.tag(), 1000444005);
}

#[test]
fn two_call_enumeration_yields_ids_in_order() {
    let items = vec![XDevIdMNDX(1), XDevIdMNDX(2), XDevIdMNDX(3)];
    let mut none: Vec<XDevIdMNDX> = Vec::new();
    let reported = answer_enumerate(&items, 0, &mut none);
    let capacity = capacity_from_count_query(0, reported).unwrap();
    assert_eq!(capacity, 3);
    let mut buffer = id_buffer(capacity);
    assert_eq!(buffer, vec![XDevIdMNDX(0); 3]);
    let written = answer_enumerate(&items, capacity, &mut buffer);
    assert_eq!(written, 3);
    let ids = written_ids(0, buffer, capacity, written).unwrap();
    assert_eq!(ids, vec![XDevIdMNDX(1), XDevIdMNDX(2), XDevIdMNDX(3)]);

    let list = XDevList::new(());
    let all_props = vec![props("a", "s1", true), props("b", "s2", false), props("c", "s3", true)];
    let xdevs = list.xdevs(&ids, &all_props);
    assert_eq!(xdevs.len(), 3);
    let got: Vec<u64> = xdevs.iter().map(|x| x.id().into_raw()).collect();
    assert_eq!(got, vec![1, 2, 3]);
    assert_eq!(xdevs[1].name(), "b");
    assert_eq!(xdevs[1].serial(), "s2");
    assert!(!xdevs[1].can_create_space());
    let made = xdevs[2].create_space(|owner: &(), id: XDevIdMNDX| {
        assert_eq!(*owner, ());
        (0, id.into_raw() * 10)
    });
    assert_eq!(made, Ok(30));
    let failed = xdevs[0].create_space(|_owner: &(), _id: XDevIdMNDX| (-9, 0u64));
    assert_eq!(failed, Err(ExtensionError::NativeCallFailed(-9)));
}

#[test]
fn enumeration_reports_per_capacity() {
    let items = vec![XDevIdMNDX(5), XDevIdMNDX(6), XDevIdMNDX(7), XDevIdMNDX(8)];
    let mut none: Vec<XDevIdMNDX> = Vec::new();
    assert_eq!(answer_enumerate(&items, 0, &mut none), 4);
    assert!(none.is_empty());

    let mut big = vec![XDevIdMNDX(9); 6];
    assert_eq!(answer_enumerate(&items, 6, &mut big), 4);
    assert_eq!(&big[..4], &items[..]);
    assert_eq!(&big[4..], &[XDevIdMNDX(9), XDevIdMNDX(9)]);

    let mut small = vec![XDevIdMNDX(0); 2];
    assert_eq!(answer_enumerate(&items, 2, &mut small), 2);
    assert_eq!(small, vec![XDevIdMNDX(5), XDevIdMNDX(6)]);

    let empty: Vec<XDevIdMNDX> = Vec::new();
    let mut none2: Vec<XDevIdMNDX> = Vec::new();
    assert_eq!(answer_enumerate(&empty, 0, &mut none2), 0);
}

#[test]
fn second_call_truncates_to_written_count() {
    let buffer = vec![XDevIdMNDX(1), XDevIdMNDX(2), XDevIdMNDX(0)];
    assert_eq!(written_ids(0, buffer, 3, 2), Ok(vec![XDevIdMNDX(1), XDevIdMNDX(2)]));
}

#[test]
fn second_call_reporting_more_than_capacity_is_an_error() {
    let buffer = vec![XDevIdMNDX(1), XDevIdMNDX(2)];
    assert_eq!(written_ids(0, buffer, 2, 3), Err(ExtensionError::CountExceedsCapacity(3, 2)));
}

#[test]
fn failed_enumeration_calls_report_the_status() {
    assert_eq!(capacity_from_count_query(-2, 4), Err(ExtensionError::NativeCallFailed(-2)));
    let buffer = vec![XDevIdMNDX(1)];
    assert_eq!(written_ids(-3, buffer, 1, 1), Err(ExtensionError::NativeCallFailed(-3)));
}

#[test]
fn text_decodes_up_to_the_terminator() {
    assert_eq!(decode_text(&text_buffer(b"Tracker")), Ok("Tracker".to_string()));
    assert_eq!(decode_text(&text_buffer("caf\u{e9}".as_bytes())), Ok("caf\u{e9}".to_string()));
    assert_eq!(decode_text(&text_buffer(b"")), Ok(String::new()));
    let mut b = text_buffer(b"ab");
    b[3] = b'z';
    assert_eq!(decode_text(&b), Ok("ab".to_string()));
}

#[test]
fn invalid_or_unterminated_text_is_an_error() {
    assert_eq!(decode_text(&text_buffer(&[0xff, 0xfe])), Err(ExtensionError::InvalidText));
    assert_eq!(decode_text(&vec![b'a'; TEXT_FIELD_SIZE]), Err(ExtensionError::InvalidText));
}

#[test]
fn properties_decode_name_serial_and_flag() {
    let p = decode_properties(0, &text_buffer(b"Index"), &text_buffer(b"LHR-1"), 1).unwrap();
    assert_eq!(p, props("Index", "LHR-1", true));
    let p = decode_properties(0, &text_buffer(b"x"), &text_buffer(b"y"), 0).unwrap();
    assert!(!p.can_create_space);
    assert_eq!(
        decode_properties(-1, &text_buffer(b"x"), &text_buffer(b"y"), 1),
        Err(ExtensionError::NativeCallFailed(-1))
    );
    assert_eq!(
        decode_properties(0, &text_buffer(b"x"), &text_buffer(&[0xc3]), 1),
        Err(ExtensionError::InvalidText)
    );
}

#[test]
fn single_call_queries() {
    assert_eq!(created_list(0, XDevListMNDX(9)), Ok(XDevListMNDX(9)));
    assert_eq!(created_list(-8, XDevListMNDX(9)), Err(ExtensionError::NativeCallFailed(-8)));
    assert_eq!(generation_from_query(0, 17), Ok(17));
    assert_eq!(generation_from_query(-1, 17), Err(ExtensionError::NativeCallFailed(-1)));
    assert_eq!(supports_from_query(0, 1), Ok(true));
    assert_eq!(supports_from_query(0, 0), Ok(false));
    assert_eq!(supports_from_query(-4, 1), Err(ExtensionError::NativeCallFailed(-4)));
}

#[test]
fn last_owner_releases_the_list_once() {
    let drops = Rc::new(Cell::new(0));
    let list = XDevList::new(DropCounter(drops.clone()));
    let second = list.clone();
    let xdev = list.xdev(XDevIdMNDX(1), props("a", "b", true));
    drop(list);
    assert_eq!(drops.get(), 0);
    drop(second);
    assert_eq!(drops.get(), 0);
    assert!(xdev.list().0.get() == 0);
    drop(xdev);
    assert_eq!(drops.get(), 1);
}

#[test]
fn shared_handles_reach_the_same_owner() {
    let list = XDevList::new(5u32);
    let other = list.clone();
    assert_eq!(*other.owner(), 5);
    let x = other.xdev(XDevIdMNDX(2), props("n", "s", false));
    assert_eq!(*x.list(), 5);
}

fn mock_enumerate(
    items: Vec<XDevIdMNDX>,
) -> impl Fn(u32, Vec<XDevIdMNDX>) -> (i32, u32, Vec<XDevIdMNDX>) {
    move |capacity, mut buffer| {
        let count = answer_enumerate(&items, capacity, &mut buffer);
        (0, count, buffer)
    }
}

fn mock_properties(id: XDevIdMNDX) -> (i32, Vec<u8>, Vec<u8>, u32) {
    let name = format!("dev{}", id.into_raw());
    let serial = format!("SN-{}", id.into_raw());
    (0, text_buffer(name.as_bytes()), text_buffer(serial.as_bytes()), (id.into_raw() % 2) as u32)
}

#[test]
fn enumerate_yields_three_items_in_id_order() {
    let list = XDevList::new(());
    let ids = vec![XDevIdMNDX(1), XDevIdMNDX(2), XDevIdMNDX(3)];
    let xdevs = list.enumerate_xdevs(mock_enumerate(ids), mock_properties).unwrap();
    assert_eq!(xdevs.len(), 3);
    let got: Vec<u64> = xdevs.iter().map(|x| x.id().into_raw()).collect();
    assert_eq!(got, vec![1, 2, 3]);
    assert_eq!(xdevs[0].name(), "dev1");
    assert_eq!(xdevs[2].serial(), "SN-3");
    assert!(xdevs[0].can_create_space());
    assert!(!xdevs[1].can_create_space());
}

#[test]
fn enumerate_of_an_empty_list_is_empty() {
    let list = XDevList::new(());
    let xdevs = list.enumerate_xdevs(mock_enumerate(Vec::new()), mock_properties).unwrap();
    assert!(xdevs.is_empty());
}

#[test]
fn enumerate_surfaces_an_overlong_second_report() {
    let list = XDevList::new(());
    let overreport = |capacity: u32, buffer: Vec<XDevIdMNDX>| {
        if capacity == 0 { (0, 2, buffer) } else { (0, 5, buffer) }
    };
    assert_eq!(
        list.enumerate_xdevs(overreport, mock_properties).err(),
        Some(ExtensionError::CountExceedsCapacity(5, 2))
    );
}

#[test]
fn enumerate_stops_at_a_failing_call() {
    let list = XDevList::new(());
    let failing = |_capacity: u32, buffer: Vec<XDevIdMNDX>| (-1, 0, buffer);
    assert_eq!(
        list.enumerate_xdevs(failing, mock_properties).err(),
        Some(ExtensionError::NativeCallFailed(-1))
    );
    let ids = vec![XDevIdMNDX(1), XDevIdMNDX(2)];
    let bad_props = |id: XDevIdMNDX| {
        if id.into_raw() == 2 { (-6, Vec::new(), Vec::new(), 0) } else { mock_properties(id) }
    };
    assert_eq!(
        list.enumerate_xdevs(mock_enumerate(ids.clone()), bad_props).err(),
        Some(ExtensionError::NativeCallFailed(-6))
    );
    let bad_text = |id: XDevIdMNDX| (0, vec![0xff, 0], text_buffer(b"s"), id.into_raw() as u32);
    assert_eq!(
        list.enumerate_xdevs(mock_enumerate(ids), bad_text).err(),
        Some(ExtensionError::InvalidText)
    );
}

#[test]
fn acquire_succeeds_when_every_entry_point_resolves() {
    let resolved = [Some(1), Some(2), Some(3), Some(4), Some(5), Some(6)];
    let list = XDevList::acquire(
        &resolved,
        |t: XDevSpacesMNDXFunctions| (0, XDevListMNDX(t.create_xdev_list as u64 + 40)),
        |h: XDevListMNDX, t: XDevSpacesMNDXFunctions| (h, t),
    )
    .unwrap();
    let (handle, table) = *list.owner();
    assert_eq!(handle, XDevListMNDX(41));
    assert_eq!(table.destroy_xdev_list, 5);
    assert_eq!(list.get_generation(|owner: &(XDevListMNDX, XDevSpacesMNDXFunctions)| (0, owner.0 .0 + 1)), Ok(42));
    assert_eq!(list.get_generation(|_owner: &(XDevListMNDX, XDevSpacesMNDXFunctions)| (-3, 7)), Err(ExtensionError::NativeCallFailed(-3)));
}

#[test]
fn acquire_reports_the_missing_entry_point_without_creating() {
    let created = Cell::new(false);
    let resolved = [Some(1), Some(2), Some(3), Some(4), None, Some(6)];
    let r = XDevList::acquire(
        &resolved,
        |_t: XDevSpacesMNDXFunctions| {
            created.set(true);
            (0, XDevListMNDX(1))
        },
        |h: XDevListMNDX, _t: XDevSpacesMNDXFunctions| h,
    );
    assert_eq!(r.err(), Some(ExtensionError::MissingEntryPoint(EntryPoint::DestroyXDevList)));
    assert!(!created.get());
}

#[test]
fn acquire_passes_on_a_failed_create() {
    let resolved = [Some(1); 6];
    let r = XDevList::acquire(
        &resolved,
        |_t: XDevSpacesMNDXFunctions| (-2, XDevListMNDX(0)),
        |h: XDevListMNDX, _t: XDevSpacesMNDXFunctions| h,
    );
    assert_eq!(r.err(), Some(ExtensionError::NativeCallFailed(-2)));
}

#[test]
fn acquired_list_is_released_once_after_its_devices() {
    let drops = Rc::new(Cell::new(0));
    let resolved = [Some(1); 6];
    let list = XDevList::acquire(
        &resolved,
        |_t: XDevSpacesMNDXFunctions| (0, XDevListMNDX(3)),
        |_h: XDevListMNDX, _t: XDevSpacesMNDXFunctions| DropCounter(drops.clone()),
    )
    .unwrap();
    let ids = vec![XDevIdMNDX(1), XDevIdMNDX(2)];
    let xdevs = list.enumerate_xdevs(mock_enumerate(ids), mock_properties).unwrap();
    drop(list);
    assert_eq!(drops.get(), 0);
    let mut xdevs = xdevs;
    xdevs.pop();
    assert_eq!(drops.get(), 0);
    drop(xdevs);
    assert_eq!(drops.get(), 1);
}

#[test]
fn enumerate_carries_the_failing_fill_status() {
    let list = XDevList::new(());
    let fill_fails = |capacity: u32, buffer: Vec<XDevIdMNDX>| {
        if capacity == 0 { (0, 2, buffer) } else { (-5, 0, buffer) }
    };
    assert_eq!(
        list.enumerate_xdevs(fill_fails, mock_properties).err(),
        Some(ExtensionError::NativeCallFailed(-5))
    );
}

#[test]
fn enumerate_keeps_only_the_reported_ids() {
    let list = XDevList::new(());
    let short = |capacity: u32, mut buffer: Vec<XDevIdMNDX>| {
        if capacity == 0 {
            (0, 3, buffer)
        } else {
            buffer[0] = XDevIdMNDX(8);
            buffer[1] = XDevIdMNDX(9);
            (0, 2, buffer)
        }
    };
    let xdevs = list.enumerate_xdevs(short, mock_properties).unwrap();
    let got: Vec<u64> = xdevs.iter().map(|x| x.id().into_raw()).collect();
    assert_eq!(got, vec![8, 9]);
}
