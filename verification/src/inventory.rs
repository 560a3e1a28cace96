//! From a hardware inventory document to the devices it lists.
//!
//! A document whose member `SPAudioDataType` is an array holds its groups
//! there; any other document is read as one group. A group's member `_items`
//! is an array of items; an item's member `_name` is its display name.
//! Anything shaped otherwise lists nothing.

use vstd::prelude::*;
use vstd::string::*;
use crate::device::{device_names, device_views, ids_sequential, AudioDevice, DeviceView};
use crate::json::Json;
use crate::text::{contains_seq, decimal_digits, decimal_text, str_contains};

verus! {

/// The name under which control surfaces are listed.
pub open spec fn control_label() -> Seq<char> {
    "Audio Controls"@
}

/// The marker in the names of controller and hub entries.
pub open spec fn controller_marker() -> Seq<char> {
    "Controller"@
}

/// A name that denotes a device that renders sound, not a control surface.
pub open spec fn is_device_name(name: Seq<char>) -> bool {
    name != control_label() && !contains_seq(name, controller_marker())
}

/// The display name of an item, if it has one that is a string.
pub open spec fn item_name(item: Json) -> Option<Seq<char>> {
    match item.member_spec("_name"@) {
        Some(value) => value.text_spec(),
        None => None,
    }
}

/// The name under which an item is accepted, if it is.
pub open spec fn accepted_name(item: Json) -> Option<Seq<char>> {
    match item_name(item) {
        Some(name) => if is_device_name(name) {
            Some(name)
        } else {
            None
        },
        None => None,
    }
}

/// The accepted names among `items`, in order.
pub open spec fn names_in_items(items: Seq<Json>) -> Seq<Seq<char>>
    decreases items.len(),
{
    if items.len() == 0 {
        Seq::empty()
    } else {
        let before = names_in_items(items.drop_last());
        match accepted_name(items.last()) {
            Some(name) => before.push(name),
            None => before,
        }
    }
}

/// The items of a group; none where `_items` is missing or no array.
pub open spec fn group_items(group: Json) -> Seq<Json> {
    match group.member_spec("_items"@) {
        Some(value) => match value.elements_spec() {
            Some(items) => items,
            None => Seq::empty(),
        },
        None => Seq::empty(),
    }
}

/// The accepted names of all items of `groups`, group by group.
pub open spec fn names_in_groups(groups: Seq<Json>) -> Seq<Seq<char>>
    decreases groups.len(),
{
    if groups.len() == 0 {
        Seq::empty()
    } else {
        names_in_groups(groups.drop_last()) + names_in_items(group_items(groups.last()))
    }
}

/// The groups of an inventory document: the elements of its member
/// `SPAudioDataType` where that is an array, else the document itself.
pub open spec fn inventory_groups(doc: Json) -> Seq<Json> {
    match doc.member_spec("SPAudioDataType"@) {
        Some(value) => match value.elements_spec() {
            Some(groups) => groups,
            None => seq![doc],
        },
        None => seq![doc],
    }
}

/// The accepted names of a whole inventory document.
pub open spec fn inventory_names(doc: Json) -> Seq<Seq<char>> {
    names_in_groups(inventory_groups(doc))
}

/// The device made of the accepted item at position `index`.
pub open spec fn discovered_device(index: int, name: Seq<char>) -> DeviceView {
    DeviceView {
        id: index as nat,
        name: name,
        uid: "device_"@ + decimal_digits(index as nat),
        is_output: true,
    }
}

/// The devices made of a list of accepted names.
pub open spec fn discovered(names: Seq<Seq<char>>) -> Seq<DeviceView> {
    Seq::new(names.len(), |i: int| discovered_device(i, names[i]))
}

/// Every name accepted among `items` is a device name.
pub proof fn accepted_items_are_device_names(items: Seq<Json>)
    ensures
        forall|i: int|
            0 <= i < names_in_items(items).len() ==> is_device_name(
                #[trigger] names_in_items(items)[i],
            ),
    decreases items.len(),
{
    if items.len() > 0 {
        accepted_items_are_device_names(items.drop_last());
        let before = names_in_items(items.drop_last());
        assert forall|i: int| 0 <= i < names_in_items(items).len() implies is_device_name(
            #[trigger] names_in_items(items)[i],
        ) by {
            if i < before.len() {
                assert(names_in_items(items)[i] == before[i]);
            }
        }
    }
}

/// Every name accepted among the items of `groups` is a device name.
pub proof fn accepted_groups_are_device_names(groups: Seq<Json>)
    ensures
        forall|i: int|
            0 <= i < names_in_groups(groups).len() ==> is_device_name(
                #[trigger] names_in_groups(groups)[i],
            ),
    decreases groups.len(),
{
    if groups.len() > 0 {
        accepted_groups_are_device_names(groups.drop_last());
        accepted_items_are_device_names(group_items(groups.last()));
        let before = names_in_groups(groups.drop_last());
        let added = names_in_items(group_items(groups.last()));
        assert forall|i: int| 0 <= i < names_in_groups(groups).len() implies is_device_name(
            #[trigger] names_in_groups(groups)[i],
        ) by {
            if i < before.len() {
                assert(names_in_groups(groups)[i] == before[i]);
            } else {
                assert(names_in_groups(groups)[i] == added[i - before.len()]);
            }
        }
    }
}

/// No device is listed under the control label or under a name that holds
/// the controller marker, whatever else its item carries.
pub proof fn only_device_names_are_listed(doc: Json)
    ensures
        forall|i: int|
            0 <= i < inventory_names(doc).len() ==> is_device_name(
                #[trigger] inventory_names(doc)[i],
            ),
        forall|i: int|
            0 <= i < inventory_names(doc).len() ==> (#[trigger] inventory_names(doc)[i])
                != control_label() && !contains_seq(inventory_names(doc)[i], controller_marker()),
{
    accepted_groups_are_device_names(inventory_groups(doc));
}

/// An item named by the control label, or by a name that holds the
/// controller marker, adds no device.
pub proof fn excluded_item_adds_nothing(items: Seq<Json>, item: Json, name: Seq<char>)
    requires
        item_name(item) == Some(name),
        name == control_label() || contains_seq(name, controller_marker()),
    ensures
        names_in_items(items.push(item)) == names_in_items(items),
{
    assert(items.push(item).drop_last() =~= items);
}

/// Decides whether a display name denotes a device.
pub fn names_device(name: &String) -> (accepted: bool)
    ensures
        accepted == is_device_name(name@),
{
    let label: String = String::from_str("Audio Controls");
    if *name == label {
        false
    } else {
        !str_contains(name.as_str(), "Controller")
    }
}

/// The name under which `item` is accepted, if it is.
pub fn accept_item(item: &Json) -> (name: Option<&String>)
    ensures
        (name is Some) == (accepted_name(*item) is Some),
        name is Some ==> name.unwrap()@ == accepted_name(*item).unwrap(),
{
    match item.member("_name") {
        Some(value) => match value.text() {
            Some(name) => if names_device(name) {
                Some(name)
            } else {
                None
            },
            None => None,
        },
        None => None,
    }
}

/// Appends the device for each accepted item of `items`.
fn collect_items(items: &Vec<Json>, devices: &mut Vec<AudioDevice>)
    requires
        device_views(old(devices)@) == discovered(device_names(old(devices)@)),
    ensures
        device_views(final(devices)@) == discovered(device_names(final(devices)@)),
        device_names(final(devices)@) == device_names(old(devices)@) + names_in_items(items@),
{
    let mut k: usize = 0;
    assert(items@.take(0) =~= Seq::<Json>::empty());
    assert(device_names(devices@) + Seq::<Seq<char>>::empty() =~= device_names(devices@));
    while k < items.len()
        invariant
            k <= items.len(),
            device_views(devices@) == discovered(device_names(devices@)),
            device_names(devices@) == device_names(old(devices)@) + names_in_items(
                items@.take(k as int),
            ),
        decreases items.len() - k,
    {
        let ghost before = devices@;
        assert(items@.take(k + 1).drop_last() =~= items@.take(k as int));
        assert(items@.take(k + 1).last() == items@[k as int]);
        match accept_item(&items[k]) {
            Some(name) => {
                let index: u64 = devices.len() as u64;
                let uid: String = String::from_str("device_").concat(decimal_text(index).as_str());
                let device = AudioDevice {
                    id: index,
                    name: name.clone(),
                    uid: uid,
                    is_output: true,
                };
                devices.push(device);
                assert(device_names(devices@) =~= device_names(before).push(name@));
                assert forall|i: int| 0 <= i < devices@.len() implies device_views(devices@)[i]
                    == discovered(device_names(devices@))[i] by {
                    if i < before.len() {
                        assert(devices@[i] == before[i]);
                        assert(device_views(before)[i] == discovered(device_names(before))[i]);
                    }
                }
                assert(device_views(devices@) =~= discovered(device_names(devices@)));
                assert(device_names(devices@) =~= device_names(old(devices)@) + names_in_items(
                    items@.take(k + 1),
                ));
            },
            None => {},
        }
        k += 1;
    }
    assert(items@.take(items.len() as int) =~= items@);
}

/// Appends the device for each accepted item of `group`.
fn collect_group(group: &Json, devices: &mut Vec<AudioDevice>)
    requires
        device_views(old(devices)@) == discovered(device_names(old(devices)@)),
    ensures
        device_views(final(devices)@) == discovered(device_names(final(devices)@)),
        device_names(final(devices)@) == device_names(old(devices)@) + names_in_items(
            group_items(*group),
        ),
{
    assert(device_names(devices@) + Seq::<Seq<char>>::empty() =~= device_names(devices@));
    match group.member("_items") {
        Some(value) => match value.elements() {
            Some(items) => {
                collect_items(items, devices);
            },
            None => {},
        },
        None => {},
    }
}

/// Lists the devices of an inventory document: one for each accepted item,
/// in document order, numbered from 0.
pub fn parse_devices(doc: &Json) -> (devices: Vec<AudioDevice>)
    ensures
        device_views(devices@) == discovered(inventory_names(*doc)),
        ids_sequential(device_views(devices@)),
        forall|i: int|
            0 <= i < devices@.len() ==> is_device_name((#[trigger] device_views(devices@)[i]).name),
{
    proof {
        only_device_names_are_listed(*doc);
    }
    let mut devices: Vec<AudioDevice> = Vec::new();
    assert(device_names(devices@) =~= Seq::<Seq<char>>::empty());
    assert(device_views(devices@) =~= discovered(device_names(devices@)));
    let listed: Option<&Vec<Json>> = match doc.member("SPAudioDataType") {
        Some(value) => value.elements(),
        None => None,
    };
    match listed {
        Some(groups) => {
            let mut g: usize = 0;
            assert(groups@.take(0) =~= Seq::<Json>::empty());
            while g < groups.len()
                invariant
                    g <= groups.len(),
                    device_views(devices@) == discovered(device_names(devices@)),
                    device_names(devices@) == names_in_groups(groups@.take(g as int)),
                decreases groups.len() - g,
            {
                assert(groups@.take(g + 1).drop_last() =~= groups@.take(g as int));
                assert(groups@.take(g + 1).last() == groups@[g as int]);
                collect_group(&groups[g], &mut devices);
                g += 1;
            }
            assert(groups@.take(groups.len() as int) =~= groups@);
        },
        None => {
            collect_group(doc, &mut devices);
            assert(seq![*doc].drop_last() =~= Seq::<Json>::empty());
            assert(names_in_groups(seq![*doc]) =~= names_in_items(group_items(*doc))) by {
                assert(names_in_groups(seq![*doc].drop_last()) =~= Seq::<Seq<char>>::empty());
            }
            assert(device_names(devices@) =~= names_in_items(group_items(*doc)));
        },
    }
    devices
}

} // verus!
