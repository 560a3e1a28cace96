//! What holds of every registry and every identifier.

use vstd::prelude::*;
use crate::device::{ids_sequential, ids_unique, DeviceView};
use crate::inventory::discovered;
use crate::json::Json;
use crate::manager::{
    document_names, fallback_views, is_first_match, matches_fragment, matches_identifier,
    no_match, populated, AudioManager,
};
use crate::text::{is_numeral, numeral_value};

verus! {

/// Ids that are the positions are unique.
pub proof fn sequential_ids_are_unique(devices: Seq<DeviceView>)
    requires
        ids_sequential(devices),
    ensures
        ids_unique(devices),
{
}

/// At most one position is that of the first device an identifier denotes.
pub proof fn first_match_is_unique(
    devices: Seq<DeviceView>,
    identifier: Seq<char>,
    a: int,
    b: int,
)
    requires
        is_first_match(devices, identifier, a),
        is_first_match(devices, identifier, b),
    ensures
        a == b,
{
}

/// In a registry whose ids are unique, a numeral equal to the id of a
/// device denotes that device and no other.
pub proof fn numeral_denotes_the_device_with_that_id(
    manager: AudioManager,
    identifier: Seq<char>,
    at: int,
)
    requires
        ids_unique(manager@),
        is_numeral(identifier),
        0 <= at < manager@.len(),
        manager@[at].id == numeral_value(identifier),
    ensures
        is_first_match(manager@, identifier, at),
        !no_match(manager@, identifier),
        forall|other: int| is_first_match(manager@, identifier, other) ==> other == at,
{
    assert(matches_identifier(manager@[at], identifier));
    assert forall|j: int| 0 <= j < at implies !matches_identifier(
        #[trigger] manager@[j],
        identifier,
    ) by {
        if matches_identifier(manager@[j], identifier) {
            assert(manager@[j].id == manager@[at].id);
        }
    }
}

/// A numeral that is no device's id denotes nothing, whatever the names
/// and uids of the devices contain.
pub proof fn unmatched_numeral_denotes_nothing(manager: AudioManager, identifier: Seq<char>)
    requires
        is_numeral(identifier),
        forall|j: int|
            0 <= j < manager@.len() ==> (#[trigger] manager@[j]).id != numeral_value(identifier),
    ensures
        no_match(manager@, identifier),
{
}

/// What is no numeral denotes the first device, in registry order, whose
/// name or uid contains it, letter case aside; and nothing where there is
/// no such device.
pub proof fn fragment_denotes_first_containing(
    manager: AudioManager,
    identifier: Seq<char>,
    at: int,
)
    requires
        !is_numeral(identifier),
    ensures
        is_first_match(manager@, identifier, at) <==> {
            &&& 0 <= at < manager@.len()
            &&& matches_fragment(manager@[at], identifier)
            &&& forall|j: int|
                0 <= j < at ==> !matches_fragment(#[trigger] manager@[j], identifier)
        },
        no_match(manager@, identifier) <==> forall|j: int|
            0 <= j < manager@.len() ==> !matches_fragment(#[trigger] manager@[j], identifier),
{
    assert forall|d: DeviceView|
        matches_identifier(d, identifier) == matches_fragment(d, identifier) by {}
}

/// Population never leaves the registry empty: where the inventory lists
/// no device, the registry is exactly the two built-in devices, and in
/// every case the ids are the positions.
pub proof fn population_is_never_empty(doc: Option<Json>)
    ensures
        populated(doc).len() > 0,
        ids_sequential(populated(doc)),
        document_names(doc).len() == 0 ==> populated(doc) == fallback_views(),
        document_names(doc).len() > 0 ==> populated(doc) == discovered(document_names(doc)),
{
}

} // verus!
