//! A high-level view on one MIDI input device.
//!
//! The device is identified by its slot number; every question about it is
//! answered through the MIDI device name query of the typed dispatch layer,
//! asking only for as many name bytes as the question needs.

use vstd::prelude::*;

use crate::convert::c_str_bytes;
use crate::reaper::Reaper;
use crate::scope::MainThreadScope;

verus! {

/// One MIDI input device slot.
#[derive(Clone, Copy, PartialEq, Eq, Structural, Debug)]
pub struct MidiInputDevice {
    id: u32,
}

impl MidiInputDevice {
    /// The device identifier.
    pub closed spec fn spec_id(self) -> u32 {
        self.id
    }

    /// Creates a handle for the device with the given identifier. The
    /// reserved identifier that stands for "all devices" in recording-input
    /// encodings is not a device and is rejected as a precondition.
    pub fn new(id: u32) -> (r: MidiInputDevice)
        requires
            id != 63,
        ensures
            r.spec_id() == id,
    {
        MidiInputDevice { id }
    }

    /// The device identifier.
    pub fn get_id(&self) -> (r: u32)
        ensures
            r == self.spec_id(),
    {
        self.id
    }

    /// Whether the device is available: connected now, or at least known to
    /// the host from an earlier session (it then still reports a name).
    pub fn is_available<F: FnOnce(u64, i32, u32) -> (bool, Vec<u8>)>(
        &self,
        reaper: &Reaper<MainThreadScope>,
        native: F,
    ) -> (r: bool)
        requires
            reaper.loaded("GetMIDIInputName"@),
            self.spec_id() <= 0x7fffffff,
            call_requires(
                native,
                (reaper.addr("GetMIDIInputName"@), self.spec_id() as i32, 2u32),
            ),
        ensures
            exists|out: (bool, Vec<u8>)|
                #[trigger] call_ensures(
                    native,
                    (reaper.addr("GetMIDIInputName"@), self.spec_id() as i32, 2u32),
                    out,
                ) && r == (out.0 || c_str_bytes(out.1@).len() > 0),
    {
        let result = reaper.get_midi_input_name(self.id, 2, native);
        result.is_present || result.name.is_some()
    }

    /// Whether the device is connected right now. Asks for a single name
    /// byte because some hosts reject a no-buffer query.
    pub fn is_connected<F: FnOnce(u64, i32, u32) -> (bool, Vec<u8>)>(
        &self,
        reaper: &Reaper<MainThreadScope>,
        native: F,
    ) -> (r: bool)
        requires
            reaper.loaded("GetMIDIInputName"@),
            self.spec_id() <= 0x7fffffff,
            call_requires(
                native,
                (reaper.addr("GetMIDIInputName"@), self.spec_id() as i32, 1u32),
            ),
        ensures
            exists|out: (bool, Vec<u8>)|
                #[trigger] call_ensures(
                    native,
                    (reaper.addr("GetMIDIInputName"@), self.spec_id() as i32, 1u32),
                    out,
                ) && r == out.0,
    {
        let result = reaper.get_midi_input_name(self.id, 1, native);
        result.is_present
    }
}

} // verus!
