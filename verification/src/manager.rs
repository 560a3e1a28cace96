//! The device registry of one session, and the resolution of identifiers.

use vstd::prelude::*;
use vstd::string::*;
use crate::device::{device_views, ids_sequential, AudioDevice, DeviceView};
use crate::error::AudioError;
use crate::inventory::{discovered, inventory_names, parse_devices};
use crate::json::{json_of_text, parse_json, Json};
use crate::text::{
    classify, contains_seq, decimal_digits, decimal_text, identifier_kind, lowercase,
    lowercase_of, occurs_at, str_contains, Identifier,
};

verus! {

/// The ordered list of the devices of one session.
pub struct AudioManager {
    pub devices: Vec<AudioDevice>,
}

/// The two devices that stand in where an inventory lists none.
pub open spec fn fallback_views() -> Seq<DeviceView> {
    seq![
        DeviceView { id: 0, name: "Built-in Output"@, uid: "builtin_output"@, is_output: true },
        DeviceView {
            id: 1,
            name: "Built-in Headphones"@,
            uid: "builtin_headphones"@,
            is_output: true,
        },
    ]
}

/// The accepted names of what was read: none where nothing could be read.
pub open spec fn document_names(doc: Option<Json>) -> Seq<Seq<char>> {
    match doc {
        Some(d) => inventory_names(d),
        None => Seq::empty(),
    }
}

/// The registry that a list of accepted names gives.
pub open spec fn registry_of(names: Seq<Seq<char>>) -> Seq<DeviceView> {
    if names.len() == 0 {
        fallback_views()
    } else {
        discovered(names)
    }
}

/// The registry that a document gives, or the lack of one.
pub open spec fn populated(doc: Option<Json>) -> Seq<DeviceView> {
    registry_of(document_names(doc))
}

/// `device` matches a name fragment: its name or its uid, in lower case,
/// contains the fragment in lower case.
pub open spec fn matches_fragment(device: DeviceView, fragment: Seq<char>) -> bool {
    contains_seq(lowercase_of(device.name), lowercase_of(fragment)) || contains_seq(
        lowercase_of(device.uid),
        lowercase_of(fragment),
    )
}

/// `device` is denoted by `identifier`: by its id where the identifier is a
/// numeral, by a fragment of its name or uid otherwise.
pub open spec fn matches_identifier(device: DeviceView, identifier: Seq<char>) -> bool {
    match identifier_kind(identifier) {
        Identifier::Index(n) => device.id == n,
        Identifier::Beyond => false,
        Identifier::Fragment => matches_fragment(device, identifier),
    }
}

/// `at` is the position of the first device that `identifier` denotes.
pub open spec fn is_first_match(devices: Seq<DeviceView>, identifier: Seq<char>, at: int) -> bool {
    &&& 0 <= at < devices.len()
    &&& matches_identifier(devices[at], identifier)
    &&& forall|j: int| 0 <= j < at ==> !matches_identifier(#[trigger] devices[j], identifier)
}

/// No device is denoted by `identifier`.
pub open spec fn no_match(devices: Seq<DeviceView>, identifier: Seq<char>) -> bool {
    forall|j: int| 0 <= j < devices.len() ==> !matches_identifier(#[trigger] devices[j], identifier)
}

/// The views of a list of texts, in order.
pub open spec fn line_views(lines: Seq<String>) -> Seq<Seq<char>> {
    Seq::new(lines.len(), |i: int| lines[i]@)
}

/// The line that lists one device: its id, a tab, its name.
pub open spec fn device_line(device: DeviceView) -> Seq<char> {
    decimal_digits(device.id) + "\t"@ + device.name
}

/// The body of the listing: one line for each device, or a single line
/// that says that there is none.
pub open spec fn listing_body(devices: Seq<DeviceView>) -> Seq<Seq<char>> {
    if devices.len() == 0 {
        seq!["No audio devices found"@]
    } else {
        Seq::new(devices.len(), |i: int| device_line(devices[i]))
    }
}

/// The listing of a registry: three heading lines, then the body.
pub open spec fn listing(devices: Seq<DeviceView>) -> Seq<Seq<char>> {
    seq!["Available Audio Output Devices:"@, "ID\tName"@, "--\t----"@] + listing_body(devices)
}

/// One of the two keys of a device contains `fragment`, as written.
pub open spec fn hits(keys: (String, String), fragment: Seq<char>) -> bool {
    contains_seq(keys.0@, fragment) || contains_seq(keys.1@, fragment)
}

/// Whether one of two keys contains a fragment, as written.
pub fn fragment_hit(name: &str, uid: &str, fragment: &str) -> (hit: bool)
    ensures
        hit == (contains_seq(name@, fragment@) || contains_seq(uid@, fragment@)),
{
    str_contains(name, fragment) || str_contains(uid, fragment)
}

/// The position of the first pair of keys of which one contains
/// `fragment`, as written.
pub fn first_hit(keys: &Vec<(String, String)>, fragment: &str) -> (found: Option<usize>)
    ensures
        match found {
            Some(at) => at < keys@.len() && hits(keys@[at as int], fragment@) && forall|j: int|
                0 <= j < at ==> !hits(#[trigger] keys@[j], fragment@),
            None => forall|j: int| 0 <= j < keys@.len() ==> !hits(#[trigger] keys@[j], fragment@),
        },
{
    let mut i: usize = 0;
    while i < keys.len()
        invariant
            i <= keys.len(),
            forall|j: int| 0 <= j < i ==> !hits(#[trigger] keys@[j], fragment@),
        decreases keys.len() - i,
    {
        if fragment_hit(keys[i].0.as_str(), keys[i].1.as_str(), fragment) {
            return Some(i);
        }
        i += 1;
    }
    None
}

impl View for AudioManager {
    type V = Seq<DeviceView>;

    open spec fn view(&self) -> Seq<DeviceView> {
        device_views(self.devices@)
    }
}

impl AudioManager {
    /// The registry's invariant once populated: each id is the position of
    /// its device, so ids are unique and contiguous from 0.
    pub open spec fn wf(&self) -> bool {
        ids_sequential(self@)
    }

    /// The registry for an inventory payload.
    pub fn new(payload: &str) -> (manager: AudioManager)
        ensures
            manager@ == populated(json_of_text(payload@)),
            manager@.len() > 0,
            manager.wf(),
    {
        let mut manager = AudioManager { devices: Vec::new() };
        manager.refresh_devices(payload);
        manager
    }

    /// Rebuilds the registry from an inventory payload. A payload that is
    /// not JSON, or not shaped as an inventory, lists nothing, and the two
    /// built-in devices stand in.
    pub fn refresh_devices(&mut self, payload: &str)
        ensures
            final(self)@ == populated(json_of_text(payload@)),
            final(self)@.len() > 0,
            final(self).wf(),
    {
        let doc: Option<Json> = parse_json(payload);
        self.refresh_from(&doc);
    }

    /// Rebuilds the registry from what was read of an inventory: the
    /// devices it lists or, where it lists none, the two built-in devices.
    pub fn refresh_from(&mut self, doc: &Option<Json>)
        ensures
            final(self)@ == populated(*doc),
            final(self)@.len() > 0,
            final(self).wf(),
            document_names(*doc).len() == 0 ==> final(self)@ == fallback_views(),
    {
        self.devices.clear();
        match doc {
            Some(d) => {
                self.devices = parse_devices(d);
            },
            None => {},
        }
        if self.devices.len() == 0 {
            self.devices.push(
                AudioDevice {
                    id: 0,
                    name: String::from_str("Built-in Output"),
                    uid: String::from_str("builtin_output"),
                    is_output: true,
                },
            );
            self.devices.push(
                AudioDevice {
                    id: 1,
                    name: String::from_str("Built-in Headphones"),
                    uid: String::from_str("builtin_headphones"),
                    is_output: true,
                },
            );
            assert(self@ =~= fallback_views());
        }
    }

    /// The number of devices.
    pub fn count(&self) -> (n: usize)
        ensures
            n == self@.len(),
    {
        self.devices.len()
    }

    /// The lines of the device listing.
    pub fn device_table(&self) -> (lines: Vec<String>)
        ensures
            line_views(lines@) == listing(self@),
    {
        let mut lines: Vec<String> = Vec::new();
        lines.push(String::from_str("Available Audio Output Devices:"));
        lines.push(String::from_str("ID\tName"));
        lines.push(String::from_str("--\t----"));
        if self.devices.len() == 0 {
            lines.push(String::from_str("No audio devices found"));
            assert(line_views(lines@) =~= listing(self@));
            return lines;
        }
        let mut i: usize = 0;
        while i < self.devices.len()
            invariant
                i <= self.devices.len(),
                lines@.len() == 3 + i,
                lines@[0]@ == "Available Audio Output Devices:"@,
                lines@[1]@ == "ID\tName"@,
                lines@[2]@ == "--\t----"@,
                forall|k: int| 3 <= k < 3 + i ==> (#[trigger] lines@[k])@ == device_line(self@[k - 3]),
            decreases self.devices.len() - i,
        {
            let device: &AudioDevice = &self.devices[i];
            let line: String = decimal_text(device.id).concat("\t").concat(device.name.as_str());
            lines.push(line);
            i += 1;
        }
        assert forall|k: int| 0 <= k < lines@.len() implies line_views(lines@)[k] == listing(
            self@,
        )[k] by {
            if k >= 3 {
                assert(listing(self@)[k] == listing_body(self@)[k - 3]);
            }
        }
        assert(line_views(lines@) =~= listing(self@));
        lines
    }

    /// The position of the first device with the id `id`.
    pub fn position_of_id(&self, id: u64) -> (found: Option<usize>)
        ensures
            match found {
                Some(at) => at < self@.len() && self@[at as int].id == id && forall|j: int|
                    0 <= j < at ==> (#[trigger] self@[j]).id != id,
                None => forall|j: int| 0 <= j < self@.len() ==> (#[trigger] self@[j]).id != id,
            },
    {
        let mut i: usize = 0;
        while i < self.devices.len()
            invariant
                i <= self.devices.len(),
                forall|j: int| 0 <= j < i ==> (#[trigger] self@[j]).id != id,
            decreases self.devices.len() - i,
        {
            if self.devices[i].id == id {
                return Some(i);
            }
            i += 1;
        }
        None
    }

    /// The first device with the id `id`, if there is one.
    pub fn device_by_id(&self, id: u64) -> (found: Option<&AudioDevice>)
        ensures
            match found {
                Some(device) => exists|at: int|
                    0 <= at < self@.len() && *device == self.devices@[at] && self@[at].id == id
                        && forall|j: int| 0 <= j < at ==> (#[trigger] self@[j]).id != id,
                None => forall|j: int| 0 <= j < self@.len() ==> (#[trigger] self@[j]).id != id,
            },
            self.wf() && id < self@.len() ==> found == Some(&self.devices@[id as int]),
    {
        let position: Option<usize> = self.position_of_id(id);
        proof {
            if self.wf() && id < self@.len() {
                assert(self@[id as int].id == id);
                if let Some(at) = position {
                    assert(self@[at as int].id == at);
                }
            }
        }
        match position {
            Some(at) => Some(&self.devices[at]),
            None => None,
        }
    }

    /// The position of the first device whose name or uid contains
    /// `fragment`, letter case aside.
    pub fn position_of_fragment(&self, fragment: &str) -> (found: Option<usize>)
        ensures
            match found {
                Some(at) => at < self@.len() && matches_fragment(self@[at as int], fragment@)
                    && forall|j: int|
                    0 <= j < at ==> !matches_fragment(#[trigger] self@[j], fragment@),
                None => forall|j: int|
                    0 <= j < self@.len() ==> !matches_fragment(#[trigger] self@[j], fragment@),
            },
            fragment@.len() == 0 && self@.len() > 0 ==> found == Some(0usize),
    {
        let needle: String = lowercase(fragment);
        let mut keys: Vec<(String, String)> = Vec::new();
        let mut i: usize = 0;
        while i < self.devices.len()
            invariant
                i <= self.devices.len(),
                keys@.len() == i,
                forall|j: int|
                    0 <= j < i ==> (#[trigger] keys@[j]).0@ == lowercase_of(self@[j].name)
                        && keys@[j].1@ == lowercase_of(self@[j].uid),
            decreases self.devices.len() - i,
        {
            let name: String = lowercase(self.devices[i].name.as_str());
            let uid: String = lowercase(self.devices[i].uid.as_str());
            keys.push((name, uid));
            i += 1;
        }
        let found: Option<usize> = first_hit(&keys, needle.as_str());
        proof {
            assert forall|j: int| 0 <= j < self@.len() implies matches_fragment(
                #[trigger] self@[j],
                fragment@,
            ) == hits(keys@[j], needle@) by {}
            if fragment@.len() == 0 && self@.len() > 0 {
                assert(keys@[0].0@.subrange(0, 0) =~= needle@);
                assert(occurs_at(keys@[0].0@, needle@, 0));
                assert(hits(keys@[0], needle@));
            }
        }
        found
    }

    /// The position of the device that `identifier` denotes: for a numeral
    /// the first device with that id, and never one found by name; for
    /// anything else the first device whose name or uid contains it.
    pub fn resolve_position(&self, identifier: &str) -> (found: Option<usize>)
        ensures
            match found {
                Some(at) => is_first_match(self@, identifier@, at as int),
                None => no_match(self@, identifier@),
            },
            identifier@.len() == 0 && self@.len() > 0 ==> found == Some(0usize),
    {
        match classify(identifier) {
            Identifier::Index(n) => self.position_of_id(n),
            Identifier::Beyond => None,
            Identifier::Fragment => self.position_of_fragment(identifier),
        }
    }

    /// The device that `identifier` denotes, if there is one.
    pub fn find_device_by_name_or_id(&self, identifier: &str) -> (found: Option<&AudioDevice>)
        ensures
            match found {
                Some(device) => exists|at: int|
                    is_first_match(self@, identifier@, at) && *device == self.devices@[at],
                None => no_match(self@, identifier@),
            },
            identifier@.len() == 0 && self@.len() > 0 ==> found == Some(&self.devices@[0]),
    {
        match self.resolve_position(identifier) {
            Some(at) => {
                assert(is_first_match(self@, identifier@, at as int));
                Some(&self.devices[at])
            },
            None => None,
        }
    }

    /// The device that `identifier` denotes, or the failure to report.
    pub fn require_device(&self, identifier: &str) -> (found: Result<&AudioDevice, AudioError>)
        ensures
            match found {
                Ok(device) => exists|at: int|
                    is_first_match(self@, identifier@, at) && *device == self.devices@[at],
                Err(e) => no_match(self@, identifier@) && e is DeviceNotFound
                    && e->DeviceNotFound_0@ == identifier@,
            },
    {
        match self.find_device_by_name_or_id(identifier) {
            Some(device) => Ok(device),
            None => Err(AudioError::DeviceNotFound(String::from_str(identifier))),
        }
    }

    /// The outcome of making `device` the default output, given whether the
    /// switching tool ran and reported success.
    pub fn set_default_device(&self, device: &AudioDevice, switched: bool) -> (outcome: Result<
        String,
        AudioError,
    >)
        ensures
            match outcome {
                Ok(report) => switched && report@ == "Successfully switched to "@ + device.name@,
                Err(e) => !switched && e is CollaboratorUnavailable,
            },
    {
        if switched {
            Ok(String::from_str("Successfully switched to ").concat(device.name.as_str()))
        } else {
            Err(AudioError::CollaboratorUnavailable)
        }
    }

    /// Redirecting one application's output is not offered: the outcome is
    /// the same failure for every application and every device.
    pub fn set_app_output_device(&self, app_name: &str, device: &AudioDevice) -> (outcome: Result<
        (),
        AudioError,
    >)
        ensures
            outcome is Err,
            outcome->Err_0 is UnsupportedOperation,
    {
        Err(AudioError::UnsupportedOperation)
    }

    /// The outcome of a request to redirect `app_name` to the device that
    /// `identifier` denotes: never a success.
    pub fn set_app_output(&self, app_name: &str, identifier: &str) -> (failure: AudioError)
        ensures
            match failure {
                AudioError::DeviceNotFound(s) => no_match(self@, identifier@) && s@ == identifier@,
                AudioError::UnsupportedOperation => !no_match(self@, identifier@),
                AudioError::CollaboratorUnavailable => false,
            },
    {
        match self.require_device(identifier) {
            Ok(device) => match self.set_app_output_device(app_name, device) {
                Ok(_) => AudioError::UnsupportedOperation,
                Err(e) => e,
            },
            Err(e) => e,
        }
    }
}

} // verus!
