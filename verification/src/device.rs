//! One audio output device, and its mathematical view.

use vstd::prelude::*;

verus! {

/// An audio device as the session knows it.
#[derive(Debug, Clone)]
pub struct AudioDevice {
    /// Position in discovery order, from 0.
    pub id: u64,
    /// The label shown to the user, and the first matching key.
    pub name: String,
    /// A session-local identifier, the second matching key.
    pub uid: String,
    /// Whether the device renders sound.
    pub is_output: bool,
}

/// What a device is, in mathematical values.
pub struct DeviceView {
    pub id: nat,
    pub name: Seq<char>,
    pub uid: Seq<char>,
    pub is_output: bool,
}

impl View for AudioDevice {
    type V = DeviceView;

    open spec fn view(&self) -> DeviceView {
        DeviceView { id: self.id as nat, name: self.name@, uid: self.uid@, is_output: self.is_output }
    }
}

/// The views of a list of devices, in order.
pub open spec fn device_views(devices: Seq<AudioDevice>) -> Seq<DeviceView> {
    Seq::new(devices.len(), |i: int| devices[i]@)
}

/// The names of a list of devices, in order.
pub open spec fn device_names(devices: Seq<AudioDevice>) -> Seq<Seq<char>> {
    Seq::new(devices.len(), |i: int| devices[i].name@)
}

/// Ids are the positions: unique, and contiguous from 0.
pub open spec fn ids_sequential(devices: Seq<DeviceView>) -> bool {
    forall|i: int| 0 <= i < devices.len() ==> (#[trigger] devices[i]).id == i
}

/// No two devices share an id.
pub open spec fn ids_unique(devices: Seq<DeviceView>) -> bool {
    forall|i: int, j: int|
        0 <= i < devices.len() && 0 <= j < devices.len() && (#[trigger] devices[i]).id == (
        #[trigger] devices[j]).id ==> i == j
}

} // verus!
