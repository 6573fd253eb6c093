//! Typed handles to native host objects, and the small reference enums the
//! typed dispatch layer speaks in.
//!
//! A native handle is a non-null pointer into the host; here it is carried as
//! a non-zero integer address. The nullable-pointer-to-option conversion of
//! the dispatch layer lives on each handle type: a null (zero) raw value
//! means "no such object" and becomes `None`, never an error, because
//! not-found is an expected outcome.

use vstd::prelude::*;

verus! {

/// A project handle (non-null).
#[derive(Clone, Copy, PartialEq, Eq, Structural, Debug)]
pub struct ReaProject {
    /// The raw, non-zero native address.
    pub raw: u64,
}

/// A track handle (non-null).
#[derive(Clone, Copy, PartialEq, Eq, Structural, Debug)]
pub struct MediaTrack {
    /// The raw, non-zero native address.
    pub raw: u64,
}

/// A window handle (non-null).
#[derive(Clone, Copy, PartialEq, Eq, Structural, Debug)]
pub struct Hwnd {
    /// The raw, non-zero native address.
    pub raw: u64,
}

/// A keyboard-section handle (non-null).
#[derive(Clone, Copy, PartialEq, Eq, Structural, Debug)]
pub struct KbdSectionInfo {
    /// The raw, non-zero native address.
    pub raw: u64,
}

/// A MIDI input device handle (non-null); only valid for the duration of the
/// call that handed it out.
#[derive(Clone, Copy, PartialEq, Eq, Structural, Debug)]
pub struct MidiInput {
    /// The raw, non-zero native address.
    pub raw: u64,
}

/// A MIDI output device handle (non-null); only valid for the duration of the
/// call that handed it out.
#[derive(Clone, Copy, PartialEq, Eq, Structural, Debug)]
pub struct MidiOutput {
    /// The raw, non-zero native address.
    pub raw: u64,
}

impl ReaProject {
    /// A handle is well-formed when its address is non-null.
    pub open spec fn wf(self) -> bool {
        self.raw != 0
    }

    /// Wraps a native pointer return value: null means "no project".
    pub fn optional(raw: u64) -> (r: Option<ReaProject>)
        ensures
            raw == 0 ==> r is None,
            raw != 0 ==> (r matches Some(p) && p.raw == raw && p.wf()),
    {
        if raw == 0 {
            None
        } else {
            Some(ReaProject { raw })
        }
    }
}

impl MediaTrack {
    /// A handle is well-formed when its address is non-null.
    pub open spec fn wf(self) -> bool {
        self.raw != 0
    }

    /// Wraps a native pointer return value: null means "no track".
    pub fn optional(raw: u64) -> (r: Option<MediaTrack>)
        ensures
            raw == 0 ==> r is None,
            raw != 0 ==> (r matches Some(t) && t.raw == raw && t.wf()),
    {
        if raw == 0 {
            None
        } else {
            Some(MediaTrack { raw })
        }
    }

    /// Wraps a native pointer return value that is owed to be non-null:
    /// null becomes a recoverable error.
    pub fn required(raw: u64) -> (r: Result<MediaTrack, ()>)
        ensures
            raw == 0 ==> r is Err,
            raw != 0 ==> (r matches Ok(t) && t.raw == raw && t.wf()),
    {
        if raw == 0 {
            Err(())
        } else {
            Ok(MediaTrack { raw })
        }
    }
}

impl Hwnd {
    /// A handle is well-formed when its address is non-null.
    pub open spec fn wf(self) -> bool {
        self.raw != 0
    }

    /// Wraps a native pointer return value: null means "no window".
    pub fn optional(raw: u64) -> (r: Option<Hwnd>)
        ensures
            raw == 0 ==> r is None,
            raw != 0 ==> (r matches Some(w) && w.raw == raw && w.wf()),
    {
        if raw == 0 {
            None
        } else {
            Some(Hwnd { raw })
        }
    }
}

impl KbdSectionInfo {
    /// A handle is well-formed when its address is non-null.
    pub open spec fn wf(self) -> bool {
        self.raw != 0
    }

    /// Wraps a native pointer return value: null means "no such section".
    pub fn optional(raw: u64) -> (r: Option<KbdSectionInfo>)
        ensures
            raw == 0 ==> r is None,
            raw != 0 ==> (r matches Some(s) && s.raw == raw && s.wf()),
    {
        if raw == 0 {
            None
        } else {
            Some(KbdSectionInfo { raw })
        }
    }
}

impl MidiInput {
    /// A handle is well-formed when its address is non-null.
    pub open spec fn wf(self) -> bool {
        self.raw != 0
    }

    /// Wraps a native pointer return value: null means "no such device".
    pub fn optional(raw: u64) -> (r: Option<MidiInput>)
        ensures
            raw == 0 ==> r is None,
            raw != 0 ==> (r matches Some(d) && d.raw == raw && d.wf()),
    {
        if raw == 0 {
            None
        } else {
            Some(MidiInput { raw })
        }
    }
}

impl MidiOutput {
    /// A handle is well-formed when its address is non-null.
    pub open spec fn wf(self) -> bool {
        self.raw != 0
    }

    /// Wraps a native pointer return value: null means "no such device".
    pub fn optional(raw: u64) -> (r: Option<MidiOutput>)
        ensures
            raw == 0 ==> r is None,
            raw != 0 ==> (r matches Some(d) && d.raw == raw && d.wf()),
    {
        if raw == 0 {
            None
        } else {
            Some(MidiOutput { raw })
        }
    }
}

/// Which project a call refers to.
#[derive(Clone, Copy, PartialEq, Eq, Structural, Debug)]
pub enum ProjectRef {
    /// The currently active project tab.
    Current,
    /// The project currently being rendered, if any.
    CurrentlyRendering,
    /// The project tab at the given index (zero-based).
    Tab(u32),
}

impl ProjectRef {
    /// The raw index convention of the native enumeration call: the current
    /// project is addressed as negative one, the rendering project by a
    /// reserved high bit, a tab by its index.
    pub open spec fn spec_to_raw(self) -> int {
        match self {
            ProjectRef::Current => -1,
            ProjectRef::CurrentlyRendering => 0x40000000,
            ProjectRef::Tab(i) => i as int,
        }
    }

    /// Converts to the native index convention.
    pub fn to_raw(self) -> (r: i32)
        requires
            self matches ProjectRef::Tab(i) ==> i <= 0x7fffffff,
        ensures
            r == self.spec_to_raw(),
    {
        match self {
            ProjectRef::Current => -1,
            ProjectRef::CurrentlyRendering => 0x40000000,
            ProjectRef::Tab(i) => i as i32,
        }
    }
}

/// A track addressed either as the master track or by its zero-based index.
#[derive(Clone, Copy, PartialEq, Eq, Structural, Debug)]
pub enum TrackRef {
    /// The master track.
    MasterTrack,
    /// A normal track, by zero-based index.
    NormalTrack(u32),
}

/// Converts the native one-based track number convention: zero denotes the
/// master track, any other value the track with that one-based number.
pub open spec fn spec_track_ref_of_tracknumber(tracknumber: u32) -> TrackRef {
    if tracknumber == 0 {
        TrackRef::MasterTrack
    } else {
        TrackRef::NormalTrack((tracknumber - 1) as u32)
    }
}

/// Executable conversion of the native one-based track number convention.
pub fn track_ref_of_tracknumber(tracknumber: u32) -> (r: TrackRef)
    ensures
        r == spec_track_ref_of_tracknumber(tracknumber),
{
    if tracknumber == 0 {
        TrackRef::MasterTrack
    } else {
        TrackRef::NormalTrack(tracknumber - 1)
    }
}

/// Whether a newly inserted track gets the default envelopes and FX.
#[derive(Clone, Copy, PartialEq, Eq, Structural, Debug)]
pub enum TrackDefaultsBehavior {
    /// Insert the track bare.
    OmitDefaultEnvAndFx,
    /// Insert the track with the configured defaults.
    AddDefaultEnvAndFx,
}

impl TrackDefaultsBehavior {
    /// The native boolean for this behavior.
    pub open spec fn spec_to_raw(self) -> bool {
        self is AddDefaultEnvAndFx
    }

    /// Converts to the native boolean.
    pub fn to_raw(self) -> (r: bool)
        ensures
            r == self.spec_to_raw(),
    {
        match self {
            TrackDefaultsBehavior::OmitDefaultEnvAndFx => false,
            TrackDefaultsBehavior::AddDefaultEnvAndFx => true,
        }
    }
}

/// What the FX-by-name call is asked to do.
#[derive(Clone, Copy, PartialEq, Eq, Structural, Debug)]
pub enum TrackFxAddByNameVariant {
    /// Only look the FX up.
    Query,
    /// Always add a new instance.
    Add,
    /// Add an instance only when none exists yet.
    AddIfNotFound,
}

impl TrackFxAddByNameVariant {
    /// The native instantiate convention: zero only queries, negative one
    /// always adds, positive one adds when not found.
    pub open spec fn spec_to_raw(self) -> int {
        match self {
            TrackFxAddByNameVariant::Query => 0,
            TrackFxAddByNameVariant::Add => -1,
            TrackFxAddByNameVariant::AddIfNotFound => 1,
        }
    }

    /// Converts to the native instantiate convention.
    pub fn to_raw(self) -> (r: i32)
        ensures
            r == self.spec_to_raw(),
    {
        match self {
            TrackFxAddByNameVariant::Query => 0,
            TrackFxAddByNameVariant::Add => -1,
            TrackFxAddByNameVariant::AddIfNotFound => 1,
        }
    }
}

/// Whether a track-send call addresses a send or a receive.
#[derive(Clone, Copy, PartialEq, Eq, Structural, Debug)]
pub enum SendOrReceive {
    /// A receive of the track.
    Receive,
    /// A send of the track.
    Send,
}

impl SendOrReceive {
    /// The native category convention: negative for receives, zero for
    /// sends.
    pub open spec fn spec_to_raw(self) -> int {
        match self {
            SendOrReceive::Receive => -1,
            SendOrReceive::Send => 0,
        }
    }

    /// Converts to the native category convention.
    pub fn to_raw(self) -> (r: i32)
        ensures
            r == self.spec_to_raw(),
    {
        match self {
            SendOrReceive::Receive => -1,
            SendOrReceive::Send => 0,
        }
    }
}

/// Where an FX sits on a track: in the normal FX chain or in the record-input
/// FX chain.
#[derive(Clone, Copy, PartialEq, Eq, Structural, Debug)]
pub enum TrackFxLocation {
    /// Index into the normal FX chain.
    NormalFxChain(u32),
    /// Index into the record-input FX chain.
    InputFxChain(u32),
}

/// The reserved bit of the native FX index convention that marks the
/// record-input FX chain.
pub const INPUT_FX_FLAG: u32 = 0x1000000;

/// Converts the native FX index convention: values below the input-FX flag
/// address the normal chain, values with the flag set address the input
/// chain. Negative values are not a valid FX location.
pub open spec fn spec_track_fx_location_of_raw(raw: i32) -> Option<TrackFxLocation> {
    if raw < 0 {
        None
    } else if raw < 0x1000000 {
        Some(TrackFxLocation::NormalFxChain(raw as u32))
    } else if raw < 0x2000000 {
        Some(TrackFxLocation::InputFxChain((raw - 0x1000000) as u32))
    } else {
        None
    }
}

impl TrackFxLocation {
    /// Executable conversion from the native FX index convention.
    pub fn try_from_raw(raw: i32) -> (r: Option<TrackFxLocation>)
        ensures
            r == spec_track_fx_location_of_raw(raw),
    {
        if raw < 0 {
            None
        } else if raw < 0x1000000 {
            Some(TrackFxLocation::NormalFxChain(raw as u32))
        } else if raw < 0x2000000 {
            Some(TrackFxLocation::InputFxChain((raw as u32) - INPUT_FX_FLAG))
        } else {
            None
        }
    }

    /// The raw native FX index for this location.
    pub open spec fn spec_to_raw(self) -> int {
        match self {
            TrackFxLocation::NormalFxChain(i) => i as int,
            TrackFxLocation::InputFxChain(i) => i as int + 0x1000000,
        }
    }

    /// Converts back to the native FX index convention.
    pub fn to_raw(self) -> (r: i32)
        requires
            self matches TrackFxLocation::NormalFxChain(i) ==> i < 0x1000000,
            self matches TrackFxLocation::InputFxChain(i) ==> i < 0x1000000,
        ensures
            r == self.spec_to_raw(),
    {
        match self {
            TrackFxLocation::NormalFxChain(i) => i as i32,
            TrackFxLocation::InputFxChain(i) => (i + INPUT_FX_FLAG) as i32,
        }
    }
}

} // verus!
