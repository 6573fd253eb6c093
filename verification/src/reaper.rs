//! The typed dispatch layer.
//!
//! A [`Reaper`] handle wraps the loaded low-level binding and converts the
//! native calling conventions into idiomatic results. The handle is generic
//! over a thread-scope marker: methods that the host documents as
//! main-thread-only are bound by [`MainThreadOnly`], real-time-only methods
//! by [`AudioThreadOnly`], and methods safe from any thread carry no bound.
//! A handle of the wrong scope cannot call a restricted method — that is
//! checked entirely at compile time.
//!
//! The actual native invocation — casting a loaded address to a function
//! pointer and calling it — is the one operation a verified library cannot
//! perform. Every dispatch method therefore takes it as a closure: the
//! embedding code passes a closure that performs the real call on the given
//! address, a test passes a mock. Each method's contract states that its
//! result is exactly the interpretation, under the native convention, of an
//! outcome of that closure applied to the loaded address.

use vstd::prelude::*;

use core::marker::PhantomData;

use crate::convert::c_str_bytes;
use crate::convert::spec_option_raw;
use crate::handles::Hwnd;
use crate::handles::KbdSectionInfo;
use crate::handles::MediaTrack;
use crate::handles::MidiInput;
use crate::handles::MidiOutput;
use crate::handles::ReaProject;
use crate::handles::ProjectRef;
use crate::handles::SendOrReceive;
use crate::handles::TrackDefaultsBehavior;
use crate::handles::TrackFxAddByNameVariant;
use crate::handles::TrackFxLocation;
use crate::handles::TrackRef;
use crate::handles::spec_track_fx_location_of_raw;
use crate::handles::spec_track_ref_of_tracknumber;
use crate::scope::AudioThreadOnly;
use crate::scope::MainThreadOnly;
use crate::scope::MainThreadScope;
use crate::scope::RealTimeAudioThreadScope;

verus! {

/// Result of a project enumeration: the project handle and, when a file name
/// was requested and the project has been saved, the project file path.
#[derive(Debug)]
pub struct EnumProjectsResult {
    /// The project.
    pub project: ReaProject,
    /// Path bytes of the project file, only if requested and available.
    pub file_path: Option<Vec<u8>>,
}

/// Result of a MIDI device name query.
#[derive(Debug)]
pub struct GetMidiDevNameResult {
    /// Whether the device is currently connected.
    pub is_present: bool,
    /// Name bytes of the device, only if a name was requested and the
    /// device has one.
    pub name: Option<Vec<u8>>,
}

/// Result of an FX preset name query.
#[derive(Debug)]
pub struct TrackFxGetPresetResult {
    /// Whether the FX state still matches the selected preset.
    pub state_matches_preset: bool,
    /// Name bytes of the preset, only if a name was requested and one is
    /// selected.
    pub name: Option<Vec<u8>>,
}

/// Result of an FX preset index query.
#[derive(Clone, Copy, PartialEq, Eq, Structural, Debug)]
pub struct TrackFxGetPresetIndexResult {
    /// Zero-based index of the selected preset.
    pub index: u32,
    /// Total number of presets available.
    pub count: u32,
}

/// The raw outputs of the focused-FX query: a discriminating result value
/// and three output parameters.
#[derive(Clone, Copy, PartialEq, Eq, Structural, Debug)]
pub struct FocusedFxRaw {
    /// Zero for none, one for a track FX, two for a take FX.
    pub result: i32,
    /// One-based track number (zero for the master track).
    pub tracknumber: i32,
    /// Zero-based item index (take FX only).
    pub itemnumber: i32,
    /// FX index, encoded by chain and, for take FX, take.
    pub fxnumber: i32,
}

/// The (last) focused FX.
#[derive(Clone, Copy, PartialEq, Eq, Structural, Debug)]
pub enum GetFocusedFxResult {
    /// A track FX is focused.
    TrackFx {
        /// Track on which the FX is located.
        track_ref: TrackRef,
        /// Location of the FX on that track.
        fx_location: TrackFxLocation,
    },
    /// A take FX is focused.
    TakeFx {
        /// Zero-based index of the track holding the item.
        track_index: u32,
        /// Zero-based index of the item on that track.
        item_index: u32,
        /// Zero-based index of the take within the item.
        take_index: u32,
        /// Zero-based index of the FX within the take's FX chain.
        fx_index: u32,
    },
}

/// What the native focused-FX convention guarantees of its outputs: the
/// result value is one of the three defined answers, a track answer carries
/// a valid track number and FX location, and a take answer carries a normal
/// (non-master) track, since only normal tracks hold items.
pub open spec fn focused_fx_raw_wf(raw: FocusedFxRaw) -> bool {
    &&& 0 <= raw.result <= 2
    &&& raw.result == 1 ==> raw.tracknumber >= 0 && spec_track_fx_location_of_raw(raw.fxnumber)
        is Some
    &&& raw.result == 2 ==> raw.tracknumber >= 1 && raw.itemnumber >= 0 && raw.fxnumber >= 0
}

/// The focused-FX interpretation: none, a track FX with decoded track and
/// location, or a take FX with the take and FX indices unpacked from the
/// two halves of the FX number.
pub open spec fn spec_focused_fx(raw: FocusedFxRaw) -> Option<GetFocusedFxResult>
    recommends
        focused_fx_raw_wf(raw),
{
    if raw.result == 0 {
        None
    } else if raw.result == 1 {
        Some(
            GetFocusedFxResult::TrackFx {
                track_ref: spec_track_ref_of_tracknumber(raw.tracknumber as u32),
                fx_location: spec_track_fx_location_of_raw(raw.fxnumber)->0,
            },
        )
    } else {
        Some(
            GetFocusedFxResult::TakeFx {
                track_index: (raw.tracknumber - 1) as u32,
                item_index: raw.itemnumber as u32,
                take_index: ((raw.fxnumber as u32) >> 16) & 0xFFFF,
                fx_index: (raw.fxnumber as u32) & 0xFFFF,
            },
        )
    }
}

/// Decodes the raw outputs of the focused-FX query.
pub fn interpret_focused_fx(raw: FocusedFxRaw) -> (r: Option<GetFocusedFxResult>)
    requires
        focused_fx_raw_wf(raw),
    ensures
        r == spec_focused_fx(raw),
{
    if raw.result == 0 {
        None
    } else if raw.result == 1 {
        let fx_location = match TrackFxLocation::try_from_raw(raw.fxnumber) {
            Some(l) => l,
            None => {
                proof {
                    assert(false);
                }
                TrackFxLocation::NormalFxChain(0)
            },
        };
        Some(
            GetFocusedFxResult::TrackFx {
                track_ref: crate::handles::track_ref_of_tracknumber(raw.tracknumber as u32),
                fx_location,
            },
        )
    } else {
        let fxnumber = raw.fxnumber as u32;
        Some(
            GetFocusedFxResult::TakeFx {
                track_index: (raw.tracknumber - 1) as u32,
                item_index: raw.itemnumber as u32,
                take_index: (fxnumber >> 16) & 0xFFFF,
                fx_index: fxnumber & 0xFFFF,
            },
        )
    }
}

/// The raw outputs of the last-touched-FX query: a validity flag and three
/// output parameters.
#[derive(Clone, Copy, PartialEq, Eq, Structural, Debug)]
pub struct LastTouchedFxRaw {
    /// Whether any FX parameter has been touched and that FX still exists.
    pub is_valid: bool,
    /// Track number; the low half is the one-based track number (zero for
    /// the master track), a non-zero high half means a take FX and holds
    /// the one-based item number.
    pub tracknumber: i32,
    /// FX index, encoded by chain and, for take FX, take.
    pub fxnumber: i32,
    /// Zero-based index of the last touched parameter.
    pub paramnumber: i32,
}

/// The last touched FX parameter's location.
#[derive(Clone, Copy, PartialEq, Eq, Structural, Debug)]
pub enum GetLastTouchedFxResult {
    /// The last touched FX is a track FX.
    TrackFx {
        /// Track on which the FX is located.
        track_ref: TrackRef,
        /// Location of the FX on that track.
        fx_location: TrackFxLocation,
        /// Zero-based index of the last touched parameter.
        param_index: u32,
    },
    /// The last touched FX is a take FX.
    TakeFx {
        /// Zero-based index of the track holding the item.
        track_index: u32,
        /// Zero-based index of the item on that track.
        item_index: u32,
        /// Zero-based index of the take within the item.
        take_index: u32,
        /// Zero-based index of the FX within the take's FX chain.
        fx_index: u32,
        /// Zero-based index of the last touched parameter.
        param_index: u32,
    },
}

/// What the native last-touched-FX convention guarantees of a valid answer:
/// non-negative outputs, a valid FX location for a track answer, and a
/// normal (non-master) track for a take answer.
pub open spec fn last_touched_fx_raw_wf(raw: LastTouchedFxRaw) -> bool {
    raw.is_valid ==> {
        &&& raw.tracknumber >= 0
        &&& raw.paramnumber >= 0
        &&& if ((raw.tracknumber as u32) >> 16) & 0xFFFF == 0 {
            spec_track_fx_location_of_raw(raw.fxnumber) is Some
        } else {
            (raw.tracknumber as u32) & 0xFFFF >= 1 && raw.fxnumber >= 0
        }
    }
}

/// The last-touched-FX interpretation: an invalid answer is none; a zero
/// high half of the track number denotes a track FX; otherwise the high
/// half holds the one-based item number of a take FX, and the take and FX
/// indices are unpacked from the two halves of the FX number.
pub open spec fn spec_last_touched_fx(raw: LastTouchedFxRaw) -> Option<GetLastTouchedFxResult>
    recommends
        last_touched_fx_raw_wf(raw),
{
    if !raw.is_valid {
        None
    } else {
        let tn = raw.tracknumber as u32;
        let high = (tn >> 16) & 0xFFFF;
        if high == 0 {
            Some(
                GetLastTouchedFxResult::TrackFx {
                    track_ref: spec_track_ref_of_tracknumber(tn),
                    fx_location: spec_track_fx_location_of_raw(raw.fxnumber)->0,
                    param_index: raw.paramnumber as u32,
                },
            )
        } else {
            Some(
                GetLastTouchedFxResult::TakeFx {
                    track_index: ((tn & 0xFFFF) - 1) as u32,
                    item_index: (high - 1) as u32,
                    take_index: ((raw.fxnumber as u32) >> 16) & 0xFFFF,
                    fx_index: (raw.fxnumber as u32) & 0xFFFF,
                    param_index: raw.paramnumber as u32,
                },
            )
        }
    }
}

/// Decodes the raw outputs of the last-touched-FX query.
pub fn interpret_last_touched_fx(raw: LastTouchedFxRaw) -> (r: Option<GetLastTouchedFxResult>)
    requires
        last_touched_fx_raw_wf(raw),
    ensures
        r == spec_last_touched_fx(raw),
{
    if !raw.is_valid {
        return None;
    }
    let tn = raw.tracknumber as u32;
    let high = (tn >> 16) & 0xFFFF;
    if high == 0 {
        let fx_location = match TrackFxLocation::try_from_raw(raw.fxnumber) {
            Some(l) => l,
            None => {
                proof {
                    assert(false);
                }
                TrackFxLocation::NormalFxChain(0)
            },
        };
        Some(
            GetLastTouchedFxResult::TrackFx {
                track_ref: crate::handles::track_ref_of_tracknumber(tn),
                fx_location,
                param_index: raw.paramnumber as u32,
            },
        )
    } else {
        let fxnumber = raw.fxnumber as u32;
        Some(
            GetLastTouchedFxResult::TakeFx {
                track_index: (tn & 0xFFFF) - 1,
                item_index: high - 1,
                take_index: (fxnumber >> 16) & 0xFFFF,
                fx_index: fxnumber & 0xFFFF,
                param_index: raw.paramnumber as u32,
            },
        )
    }
}

/// The typed access point for native functions, parameterized by the
/// thread-scope marker `S`.
pub struct Reaper<S> {
    /// The loaded low-level binding.
    pub low: crate::low::Reaper,
    /// The compile-time-only scope tag.
    pub scope: PhantomData<S>,
}

impl Reaper<MainThreadScope> {
    /// Wraps the loaded low-level binding in a main-thread-scoped handle.
    /// This is the only handle flavor obtainable without an explicit scope
    /// choice.
    pub fn new(low: crate::low::Reaper) -> (r: Reaper<MainThreadScope>)
        ensures
            r.low == low,
    {
        Reaper { low, scope: PhantomData }
    }
}

impl<S> Reaper<S> {
    /// Whether the entry point of the given name is loaded and callable.
    pub open spec fn loaded(self, name: Seq<char>) -> bool {
        self.low.pointers.is_loaded(name)
    }

    /// The loaded address of the entry point of the given name.
    pub open spec fn addr(self, name: Seq<char>) -> u64 {
        self.low.pointers.spec_address(name)->0
    }

    /// Turns this handle into a real-time-audio-thread-scoped one. This is
    /// the only way to obtain the real-time flavor, and it is the caller's
    /// obligation to use it only from the real audio callback.
    pub fn into_real_time(self) -> (r: Reaper<RealTimeAudioThreadScope>)
        ensures
            r.low == self.low,
    {
        Reaper { low: self.low, scope: PhantomData }
    }

    /// Creates an additional real-time-audio-thread-scoped handle over the
    /// same loaded table, leaving this handle in place. The handle holds
    /// only addresses and a scope tag, so duplicating it is always safe;
    /// using the new handle outside the real audio callback is not, and
    /// remains the caller's obligation.
    pub fn create_real_time_reaper(&self) -> (r: Reaper<RealTimeAudioThreadScope>)
        ensures
            forall|name: Seq<char>| #[trigger]
                r.low.pointers.spec_entry(name) == self.low.pointers.spec_entry(name),
            forall|name: Seq<char>| #[trigger]
                r.low.plugin_context.resolver.spec_resolve(name)
                    == self.low.plugin_context.resolver.spec_resolve(name),
            r.low.plugin_context.process_handle == self.low.plugin_context.process_handle,
            self.low.wf() ==> r.low.wf(),
    {
        let pointers = self.low.pointers.duplicate();
        let resolver = self.low.plugin_context.resolver.duplicate();
        let low = crate::low::Reaper {
            pointers,
            plugin_context: crate::low::PluginContext {
                process_handle: self.low.plugin_context.process_handle,
                resolver,
            },
        };
        Reaper { low, scope: PhantomData }
    }

    /// Gives access to the low-level binding.
    pub fn low(&self) -> (r: &crate::low::Reaper)
        ensures
            *r == self.low,
    {
        &self.low
    }

    /// The loaded address of an entry point that is known to be loaded.
    fn loaded_addr(&self, name: &String) -> (a: u64)
        requires
            self.loaded(name@),
        ensures
            a == self.addr(name@),
    {
        match self.low.pointers.address_of(name) {
            Some(a) => a,
            None => {
                proof {
                    assert(false);
                }
                0
            },
        }
    }

    /// Whether the current thread is the real-time audio thread. Safe from
    /// any thread, so no scope bound.
    pub fn is_in_real_time_audio<F: FnOnce(u64) -> i32>(&self, native: F) -> (r: bool)
        requires
            self.loaded("IsInRealTimeAudio"@),
            call_requires(native, (self.addr("IsInRealTimeAudio"@),)),
        ensures
            exists|out: i32|
                #[trigger] call_ensures(native, (self.addr("IsInRealTimeAudio"@),), out) && r == (out != 0),
    {
        let name: String = "IsInRealTimeAudio".to_owned();
        let out = native(self.loaded_addr(&name));
        out != 0
    }
}

impl<S: MainThreadOnly> Reaper<S> {
    /// Counts the tracks of the given project (the current project if
    /// absent). Direct forwarding: the count is the native call's result,
    /// unchanged.
    pub fn count_tracks<F: FnOnce(u64, u64) -> i32>(
        &self,
        proj: Option<ReaProject>,
        native: F,
    ) -> (r: u32)
        requires
            self.loaded("CountTracks"@),
            call_requires(native, (self.addr("CountTracks"@), spec_option_raw(proj))),
            forall|out: i32|
                call_ensures(native, (self.addr("CountTracks"@), spec_option_raw(proj)), out)
                    ==> out >= 0,
        ensures
            exists|out: i32|
                #[trigger] call_ensures(native, (self.addr("CountTracks"@), spec_option_raw(proj)), out)
                    && r == out,
    {
        let name: String = "CountTracks".to_owned();
        let addr = self.loaded_addr(&name);
        let out = native(addr, crate::convert::option_into(proj));
        out as u32
    }

    /// Removes the given track. Direct forwarding with no result.
    pub fn delete_track<F: FnOnce(u64, u64) -> ()>(&self, track: MediaTrack, native: F)
        requires
            self.loaded("DeleteTrack"@),
            track.wf(),
            call_requires(native, (self.addr("DeleteTrack"@), track.raw)),
        ensures
            call_ensures(native, (self.addr("DeleteTrack"@), track.raw), ()),
    {
        let name: String = "DeleteTrack".to_owned();
        let addr = self.loaded_addr(&name);
        native(addr, track.raw);
    }

    /// Returns the host's main window. The host always has one, so a null
    /// answer is outside the native contract.
    pub fn get_main_hwnd<F: FnOnce(u64) -> u64>(&self, native: F) -> (r: Hwnd)
        requires
            self.loaded("GetMainHwnd"@),
            call_requires(native, (self.addr("GetMainHwnd"@),)),
            forall|out: u64| call_ensures(native, (self.addr("GetMainHwnd"@),), out) ==> out != 0,
        ensures
            exists|out: u64|
                #[trigger] call_ensures(native, (self.addr("GetMainHwnd"@),), out) && r.raw == out,
            r.wf(),
    {
        let name: String = "GetMainHwnd".to_owned();
        let out = native(self.loaded_addr(&name));
        Hwnd { raw: out }
    }

    /// Clears the host's scripting console. Direct forwarding with no
    /// result.
    pub fn clear_console<F: FnOnce(u64) -> ()>(&self, native: F)
        requires
            self.loaded("ClearConsole"@),
            call_requires(native, (self.addr("ClearConsole"@),)),
        ensures
            call_ensures(native, (self.addr("ClearConsole"@),), ()),
    {
        let name: String = "ClearConsole".to_owned();
        let addr = self.loaded_addr(&name);
        native(addr);
    }

    /// Notifies every registered control surface of the current track list.
    /// Direct forwarding with no result.
    pub fn track_list_update_all_external_surfaces<F: FnOnce(u64) -> ()>(&self, native: F)
        requires
            self.loaded("TrackList_UpdateAllExternalSurfaces"@),
            call_requires(native, (self.addr("TrackList_UpdateAllExternalSurfaces"@),)),
        ensures
            call_ensures(native, (self.addr("TrackList_UpdateAllExternalSurfaces"@),), ()),
    {
        let name: String = "TrackList_UpdateAllExternalSurfaces".to_owned();
        let addr = self.loaded_addr(&name);
        native(addr);
    }

    /// The number of MIDI input slots the host offers. Direct forwarding;
    /// the count is never negative.
    pub fn get_max_midi_inputs<F: FnOnce(u64) -> i32>(&self, native: F) -> (r: u32)
        requires
            self.loaded("GetMaxMidiInputs"@),
            call_requires(native, (self.addr("GetMaxMidiInputs"@),)),
            forall|out: i32|
                call_ensures(native, (self.addr("GetMaxMidiInputs"@),), out) ==> out >= 0,
        ensures
            exists|out: i32|
                #[trigger] call_ensures(native, (self.addr("GetMaxMidiInputs"@),), out) && r == out,
    {
        let name: String = "GetMaxMidiInputs".to_owned();
        let out = native(self.loaded_addr(&name));
        out as u32
    }

    /// The number of MIDI output slots the host offers. Direct forwarding;
    /// the count is never negative.
    pub fn get_max_midi_outputs<F: FnOnce(u64) -> i32>(&self, native: F) -> (r: u32)
        requires
            self.loaded("GetMaxMidiOutputs"@),
            call_requires(native, (self.addr("GetMaxMidiOutputs"@),)),
            forall|out: i32|
                call_ensures(native, (self.addr("GetMaxMidiOutputs"@),), out) ==> out >= 0,
        ensures
            exists|out: i32|
                #[trigger] call_ensures(native, (self.addr("GetMaxMidiOutputs"@),), out) && r == out,
    {
        let name: String = "GetMaxMidiOutputs".to_owned();
        let out = native(self.loaded_addr(&name));
        out as u32
    }

    /// Inserts a new track at the given index.
    pub fn insert_track_at_index<F: FnOnce(u64, i32, bool) -> ()>(
        &self,
        idx: u32,
        want_defaults: TrackDefaultsBehavior,
        native: F,
    )
        requires
            self.loaded("InsertTrackAtIndex"@),
            idx <= 0x7fffffff,
            call_requires(
                native,
                (self.addr("InsertTrackAtIndex"@), idx as i32, want_defaults.spec_to_raw()),
            ),
        ensures
            call_ensures(
                native,
                (self.addr("InsertTrackAtIndex"@), idx as i32, want_defaults.spec_to_raw()),
                (),
            ),
    {
        let name: String = "InsertTrackAtIndex".to_owned();
        let addr = self.loaded_addr(&name);
        native(addr, idx as i32, want_defaults.to_raw());
    }

    /// Looks up the keyboard section with the given unique identifier; an
    /// unknown identifier is an expected, non-exceptional answer.
    pub fn section_from_unique_id<F: FnOnce(u64, i32) -> u64>(
        &self,
        unique_id: u32,
        native: F,
    ) -> (r: Option<KbdSectionInfo>)
        requires
            self.loaded("SectionFromUniqueID"@),
            unique_id <= 0x7fffffff,
            call_requires(native, (self.addr("SectionFromUniqueID"@), unique_id as i32)),
        ensures
            exists|out: u64|
                #[trigger] call_ensures(native, (self.addr("SectionFromUniqueID"@), unique_id as i32), out)
                    && r == spec_optional_handle_section(out),
    {
        let name: String = "SectionFromUniqueID".to_owned();
        let addr = self.loaded_addr(&name);
        let out = native(addr, unique_id as i32);
        KbdSectionInfo::optional(out)
    }

    /// The project currently in a load or save operation, if any.
    pub fn get_current_project_in_load_save<F: FnOnce(u64) -> u64>(&self, native: F) -> (r: Option<
        ReaProject,
    >)
        requires
            self.loaded("GetCurrentProjectInLoadSave"@),
            call_requires(native, (self.addr("GetCurrentProjectInLoadSave"@),)),
        ensures
            exists|out: u64|
                #[trigger] call_ensures(native, (self.addr("GetCurrentProjectInLoadSave"@),), out) && r
                    == spec_optional_handle_project(out),
    {
        let name: String = "GetCurrentProjectInLoadSave".to_owned();
        let out = native(self.loaded_addr(&name));
        ReaProject::optional(out)
    }

    /// The given track's parent track, if it has one.
    pub fn get_media_track_info_partrack<F: FnOnce(u64, u64) -> u64>(
        &self,
        tr: MediaTrack,
        native: F,
    ) -> (r: Option<MediaTrack>)
        requires
            self.loaded("GetSetMediaTrackInfo"@),
            tr.wf(),
            call_requires(native, (self.addr("GetSetMediaTrackInfo"@), tr.raw)),
        ensures
            exists|out: u64|
                #[trigger] call_ensures(native, (self.addr("GetSetMediaTrackInfo"@), tr.raw), out) && r
                    == spec_optional_handle_track(out),
    {
        let name: String = "GetSetMediaTrackInfo".to_owned();
        let addr = self.loaded_addr(&name);
        let out = native(addr, tr.raw);
        MediaTrack::optional(out)
    }

    /// The given track's parent project. Hosts older than the attribute
    /// answer null, so the answer is optional.
    pub fn get_media_track_info_project<F: FnOnce(u64, u64) -> u64>(
        &self,
        tr: MediaTrack,
        native: F,
    ) -> (r: Option<ReaProject>)
        requires
            self.loaded("GetSetMediaTrackInfo"@),
            tr.wf(),
            call_requires(native, (self.addr("GetSetMediaTrackInfo"@), tr.raw)),
        ensures
            exists|out: u64|
                #[trigger] call_ensures(native, (self.addr("GetSetMediaTrackInfo"@), tr.raw), out) && r
                    == spec_optional_handle_project(out),
    {
        let name: String = "GetSetMediaTrackInfo".to_owned();
        let addr = self.loaded_addr(&name);
        let out = native(addr, tr.raw);
        ReaProject::optional(out)
    }

    /// Adds an FX by name or looks it up, under the given instantiation
    /// behavior. The raw index convention is kept because its meaning
    /// depends on the behavior; the query and add variants interpret it.
    pub fn track_fx_add_by_name<F: FnOnce(u64, u64, bool, i32) -> i32>(
        &self,
        track: MediaTrack,
        rec_fx: bool,
        instantiate: TrackFxAddByNameVariant,
        native: F,
    ) -> (r: i32)
        requires
            self.loaded("TrackFX_AddByName"@),
            track.wf(),
            call_requires(
                native,
                (self.addr("TrackFX_AddByName"@), track.raw, rec_fx, instantiate.spec_to_raw() as i32),
            ),
        ensures
            call_ensures(
                native,
                (self.addr("TrackFX_AddByName"@), track.raw, rec_fx, instantiate.spec_to_raw() as i32),
                r,
            ),
    {
        let name: String = "TrackFX_AddByName".to_owned();
        let addr = self.loaded_addr(&name);
        native(addr, track.raw, rec_fx, instantiate.to_raw())
    }

    /// Looks up an FX by name: the sentinel answer means no such FX, an
    /// expected outcome; any other answer is the FX index.
    pub fn track_fx_add_by_name_query<F: FnOnce(u64, u64, bool, i32) -> i32>(
        &self,
        track: MediaTrack,
        rec_fx: bool,
        native: F,
    ) -> (r: Option<u32>)
        requires
            self.loaded("TrackFX_AddByName"@),
            track.wf(),
            call_requires(native, (self.addr("TrackFX_AddByName"@), track.raw, rec_fx, 0i32)),
            forall|out: i32|
                call_ensures(native, (self.addr("TrackFX_AddByName"@), track.raw, rec_fx, 0i32), out)
                    ==> out >= -1,
        ensures
            exists|out: i32|
                #[trigger] call_ensures(native, (self.addr("TrackFX_AddByName"@), track.raw, rec_fx, 0i32), out)
                    && r == spec_sentinel_option(out),
    {
        let out = self.track_fx_add_by_name(track, rec_fx, TrackFxAddByNameVariant::Query, native);
        if out == -1 {
            None
        } else {
            Some(out as u32)
        }
    }

    /// Adds an FX by name (always, or only when none exists yet): the
    /// sentinel answer means the FX could not be added; any other answer is
    /// the FX index.
    pub fn track_fx_add_by_name_add<F: FnOnce(u64, u64, bool, i32) -> i32>(
        &self,
        track: MediaTrack,
        rec_fx: bool,
        force_add: bool,
        native: F,
    ) -> (r: Result<u32, ()>)
        requires
            self.loaded("TrackFX_AddByName"@),
            track.wf(),
            force_add ==> call_requires(
                native,
                (self.addr("TrackFX_AddByName"@), track.raw, rec_fx, -1i32),
            ),
            !force_add ==> call_requires(
                native,
                (self.addr("TrackFX_AddByName"@), track.raw, rec_fx, 1i32),
            ),
            force_add ==> forall|out: i32|
                #[trigger] call_ensures(
                    native,
                    (self.addr("TrackFX_AddByName"@), track.raw, rec_fx, -1i32),
                    out,
                ) ==> out >= -1,
            !force_add ==> forall|out: i32|
                #[trigger] call_ensures(
                    native,
                    (self.addr("TrackFX_AddByName"@), track.raw, rec_fx, 1i32),
                    out,
                ) ==> out >= -1,
        ensures
            force_add ==> exists|out: i32|
                #[trigger] call_ensures(native, (self.addr("TrackFX_AddByName"@), track.raw, rec_fx, -1i32), out)
                    && r == spec_sentinel_result(out),
            !force_add ==> exists|out: i32|
                #[trigger] call_ensures(native, (self.addr("TrackFX_AddByName"@), track.raw, rec_fx, 1i32), out)
                    && r == spec_sentinel_result(out),
    {
        let variant = if force_add {
            TrackFxAddByNameVariant::Add
        } else {
            TrackFxAddByNameVariant::AddIfNotFound
        };
        let out = self.track_fx_add_by_name(track, rec_fx, variant, native);
        if out == -1 {
            Err(())
        } else {
            Ok(out as u32)
        }
    }

    /// The destination track of the given send or receive; asking for a
    /// send that does not exist is answered with an error.
    pub fn get_track_send_info_desttrack<F: FnOnce(u64, u64, i32, i32) -> u64>(
        &self,
        tr: MediaTrack,
        category: SendOrReceive,
        sendidx: u32,
        native: F,
    ) -> (r: Result<MediaTrack, ()>)
        requires
            self.loaded("GetSetTrackSendInfo"@),
            tr.wf(),
            sendidx <= 0x7fffffff,
            call_requires(
                native,
                (
                    self.addr("GetSetTrackSendInfo"@),
                    tr.raw,
                    category.spec_to_raw() as i32,
                    sendidx as i32,
                ),
            ),
        ensures
            exists|out: u64|
                #[trigger] call_ensures(
                    native,
                    (
                        self.addr("GetSetTrackSendInfo"@),
                        tr.raw,
                        category.spec_to_raw() as i32,
                        sendidx as i32,
                    ),
                    out,
                ) && (out == 0 ==> r is Err) && (out != 0 ==> (r matches Ok(t) && t.raw == out
                    && t.wf())),
    {
        let name: String = "GetSetTrackSendInfo".to_owned();
        let addr = self.loaded_addr(&name);
        let out = native(addr, tr.raw, category.to_raw(), sendidx as i32);
        MediaTrack::required(out)
    }

    /// Runs a main-section action with the given value change. The raw
    /// result convention of the native dispatcher is kept unchanged.
    pub fn kbd_on_main_action_ex<F: FnOnce(u64, i32, i32, i32, i32, u64, u64) -> i32>(
        &self,
        cmd: u32,
        value: crate::convert::KbdActionValue,
        window: Option<Hwnd>,
        proj: Option<ReaProject>,
        native: F,
    ) -> (r: i32)
        requires
            self.loaded("KBD_OnMainActionEx"@),
            cmd <= 0x7fffffff,
            value.wf(),
            call_requires(
                native,
                (
                    self.addr("KBD_OnMainActionEx"@),
                    cmd as i32,
                    value.spec_to_raw().0 as i32,
                    value.spec_to_raw().1 as i32,
                    value.spec_to_raw().2 as i32,
                    spec_option_hwnd_raw(window),
                    spec_option_raw(proj),
                ),
            ),
        ensures
            call_ensures(
                native,
                (
                    self.addr("KBD_OnMainActionEx"@),
                    cmd as i32,
                    value.spec_to_raw().0 as i32,
                    value.spec_to_raw().1 as i32,
                    value.spec_to_raw().2 as i32,
                    spec_option_hwnd_raw(window),
                    spec_option_raw(proj),
                ),
                r,
            ),
    {
        let name: String = "KBD_OnMainActionEx".to_owned();
        let addr = self.loaded_addr(&name);
        let (val, valhw, relmode) = value.to_raw();
        let hwnd_raw: u64 = match window {
            None => 0,
            Some(w) => w.raw,
        };
        native(addr, cmd as i32, val, valhw, relmode, hwnd_raw, crate::convert::option_into(proj))
    }
}

/// The optional-handle convention for sections, at spec level.
pub open spec fn spec_optional_handle_section(out: u64) -> Option<KbdSectionInfo> {
    if out == 0 {
        None
    } else {
        Some(KbdSectionInfo { raw: out })
    }
}

/// The optional-handle convention for projects, at spec level.
pub open spec fn spec_optional_handle_project(out: u64) -> Option<ReaProject> {
    if out == 0 {
        None
    } else {
        Some(ReaProject { raw: out })
    }
}

/// The optional-handle convention for tracks, at spec level.
pub open spec fn spec_optional_handle_track(out: u64) -> Option<MediaTrack> {
    if out == 0 {
        None
    } else {
        Some(MediaTrack { raw: out })
    }
}

/// The sentinel convention as an option: negative one means none, any other
/// answer is the index.
pub open spec fn spec_sentinel_option(out: i32) -> Option<u32>
    recommends
        out >= -1,
{
    if out == -1 {
        None
    } else {
        Some(out as u32)
    }
}

/// The sentinel convention as a result: negative one means failure, any
/// other answer is the index.
pub open spec fn spec_sentinel_result(out: i32) -> Result<u32, ()>
    recommends
        out >= -1,
{
    if out == -1 {
        Err(())
    } else {
        Ok(out as u32)
    }
}

/// The raw address of an optional window handle: absent becomes null.
pub open spec fn spec_option_hwnd_raw(window: Option<Hwnd>) -> u64 {
    match window {
        None => 0,
        Some(w) => w.raw,
    }
}

/// How a string answer relates to the buffer the native call filled: an
/// empty native string is reported as no string at all, anything else as
/// exactly the bytes before the terminator.
pub open spec fn spec_string_result(name: Option<Vec<u8>>, filled: Seq<u8>) -> bool {
    if c_str_bytes(filled).len() == 0 {
        name is None
    } else {
        name matches Some(n) && n@ == c_str_bytes(filled)
    }
}

/// The optional-handle convention for MIDI inputs, at spec level.
pub open spec fn spec_optional_handle_midi_input(out: u64) -> Option<MidiInput> {
    if out == 0 {
        None
    } else {
        Some(MidiInput { raw: out })
    }
}

/// The optional-handle convention for MIDI outputs, at spec level.
pub open spec fn spec_optional_handle_midi_output(out: u64) -> Option<MidiOutput> {
    if out == 0 {
        None
    } else {
        Some(MidiOutput { raw: out })
    }
}

impl<S: MainThreadOnly> Reaper<S> {
    /// Returns the requested project and, if a positive buffer size asks
    /// for it, its file name. A zero buffer size means no string is wanted:
    /// no buffer is interpreted and the answer cannot be mistaken for an
    /// empty file name.
    pub fn enum_projects<F: FnOnce(u64, i32, u32) -> (u64, Vec<u8>)>(
        &self,
        proj_ref: ProjectRef,
        buffer_size: u32,
        native: F,
    ) -> (r: Option<EnumProjectsResult>)
        requires
            self.loaded("EnumProjects"@),
            proj_ref matches ProjectRef::Tab(i) ==> i <= 0x7fffffff,
            call_requires(
                native,
                (self.addr("EnumProjects"@), proj_ref.spec_to_raw() as i32, buffer_size),
            ),
        ensures
            exists|out: (u64, Vec<u8>)|
                {
                    &&& #[trigger] call_ensures(
                        native,
                        (self.addr("EnumProjects"@), proj_ref.spec_to_raw() as i32, buffer_size),
                        out,
                    )
                    &&& out.0 == 0 ==> r is None
                    &&& out.0 != 0 ==> (r matches Some(res) && res.project.raw == out.0
                        && res.project.wf() && (buffer_size == 0 ==> res.file_path is None) && (
                    buffer_size > 0 ==> spec_string_result(res.file_path, out.1@)))
                },
    {
        let name: String = "EnumProjects".to_owned();
        let addr = self.loaded_addr(&name);
        let idx = proj_ref.to_raw();
        let (ptr, filled) = native(addr, idx, buffer_size);
        match ReaProject::optional(ptr) {
            None => None,
            Some(project) => {
                if buffer_size == 0 {
                    Some(EnumProjectsResult { project, file_path: None })
                } else {
                    let file_path = crate::convert::interpret_string_buffer(&filled);
                    Some(EnumProjectsResult { project, file_path })
                }
            },
        }
    }

    /// Queries a MIDI input device: whether it is present and, if a
    /// positive buffer size asks for it, its name. A zero buffer size means
    /// no string is wanted: no buffer is interpreted and the answer cannot
    /// be mistaken for an empty device name.
    pub fn get_midi_input_name<F: FnOnce(u64, i32, u32) -> (bool, Vec<u8>)>(
        &self,
        dev: u32,
        buffer_size: u32,
        native: F,
    ) -> (r: GetMidiDevNameResult)
        requires
            self.loaded("GetMIDIInputName"@),
            dev <= 0x7fffffff,
            call_requires(native, (self.addr("GetMIDIInputName"@), dev as i32, buffer_size)),
        ensures
            exists|out: (bool, Vec<u8>)|
                {
                    &&& #[trigger] call_ensures(
                        native,
                        (self.addr("GetMIDIInputName"@), dev as i32, buffer_size),
                        out,
                    )
                    &&& r.is_present == out.0
                    &&& buffer_size == 0 ==> r.name is None
                    &&& buffer_size > 0 ==> spec_string_result(r.name, out.1@)
                },
    {
        let name: String = "GetMIDIInputName".to_owned();
        let addr = self.loaded_addr(&name);
        let (is_present, filled) = native(addr, dev as i32, buffer_size);
        if buffer_size == 0 {
            GetMidiDevNameResult { is_present, name: None }
        } else {
            let dev_name = crate::convert::interpret_string_buffer(&filled);
            GetMidiDevNameResult { is_present, name: dev_name }
        }
    }

    /// Queries a MIDI output device: whether it is present and, if a
    /// positive buffer size asks for it, its name. A zero buffer size means
    /// no string is wanted.
    pub fn get_midi_output_name<F: FnOnce(u64, i32, u32) -> (bool, Vec<u8>)>(
        &self,
        dev: u32,
        buffer_size: u32,
        native: F,
    ) -> (r: GetMidiDevNameResult)
        requires
            self.loaded("GetMIDIOutputName"@),
            dev <= 0x7fffffff,
            call_requires(native, (self.addr("GetMIDIOutputName"@), dev as i32, buffer_size)),
        ensures
            exists|out: (bool, Vec<u8>)|
                {
                    &&& #[trigger] call_ensures(
                        native,
                        (self.addr("GetMIDIOutputName"@), dev as i32, buffer_size),
                        out,
                    )
                    &&& r.is_present == out.0
                    &&& buffer_size == 0 ==> r.name is None
                    &&& buffer_size > 0 ==> spec_string_result(r.name, out.1@)
                },
    {
        let name: String = "GetMIDIOutputName".to_owned();
        let addr = self.loaded_addr(&name);
        let (is_present, filled) = native(addr, dev as i32, buffer_size);
        if buffer_size == 0 {
            GetMidiDevNameResult { is_present, name: None }
        } else {
            let dev_name = crate::convert::interpret_string_buffer(&filled);
            GetMidiDevNameResult { is_present, name: dev_name }
        }
    }

    /// Queries the selected preset of an FX: whether the FX state still
    /// matches it and, if a positive buffer size asks for it, its name. A
    /// zero buffer size means no string is wanted.
    pub fn track_fx_get_preset<F: FnOnce(u64, u64, i32, u32) -> (bool, Vec<u8>)>(
        &self,
        track: MediaTrack,
        fx_location: TrackFxLocation,
        buffer_size: u32,
        native: F,
    ) -> (r: TrackFxGetPresetResult)
        requires
            self.loaded("TrackFX_GetPreset"@),
            track.wf(),
            fx_location matches TrackFxLocation::NormalFxChain(i) ==> i < 0x1000000,
            fx_location matches TrackFxLocation::InputFxChain(i) ==> i < 0x1000000,
            call_requires(
                native,
                (
                    self.addr("TrackFX_GetPreset"@),
                    track.raw,
                    fx_location.spec_to_raw() as i32,
                    buffer_size,
                ),
            ),
        ensures
            exists|out: (bool, Vec<u8>)|
                {
                    &&& #[trigger] call_ensures(
                        native,
                        (
                            self.addr("TrackFX_GetPreset"@),
                            track.raw,
                            fx_location.spec_to_raw() as i32,
                            buffer_size,
                        ),
                        out,
                    )
                    &&& r.state_matches_preset == out.0
                    &&& buffer_size == 0 ==> r.name is None
                    &&& buffer_size > 0 ==> spec_string_result(r.name, out.1@)
                },
    {
        let name: String = "TrackFX_GetPreset".to_owned();
        let addr = self.loaded_addr(&name);
        let (state_matches_preset, filled) = native(
            addr,
            track.raw,
            fx_location.to_raw(),
            buffer_size,
        );
        if buffer_size == 0 {
            TrackFxGetPresetResult { state_matches_preset, name: None }
        } else {
            let preset_name = crate::convert::interpret_string_buffer(&filled);
            TrackFxGetPresetResult { state_matches_preset, name: preset_name }
        }
    }

    /// Queries the selected preset's index and the preset count of an FX.
    /// The native call answers the sentinel when no preset is selected or
    /// the FX does not exist — an expected outcome.
    pub fn track_fx_get_preset_index<F: FnOnce(u64, u64, i32) -> (i32, i32)>(
        &self,
        track: MediaTrack,
        fx_location: TrackFxLocation,
        native: F,
    ) -> (r: Option<TrackFxGetPresetIndexResult>)
        requires
            self.loaded("TrackFX_GetPresetIndex"@),
            track.wf(),
            fx_location matches TrackFxLocation::NormalFxChain(i) ==> i < 0x1000000,
            fx_location matches TrackFxLocation::InputFxChain(i) ==> i < 0x1000000,
            call_requires(
                native,
                (self.addr("TrackFX_GetPresetIndex"@), track.raw, fx_location.spec_to_raw() as i32),
            ),
            forall|out: (i32, i32)|
                #[trigger] call_ensures(
                    native,
                    (
                        self.addr("TrackFX_GetPresetIndex"@),
                        track.raw,
                        fx_location.spec_to_raw() as i32,
                    ),
                    out,
                ) ==> out.0 >= -1 && out.1 >= 0,
        ensures
            exists|out: (i32, i32)|
                {
                    &&& #[trigger] call_ensures(
                        native,
                        (
                            self.addr("TrackFX_GetPresetIndex"@),
                            track.raw,
                            fx_location.spec_to_raw() as i32,
                        ),
                        out,
                    )
                    &&& out.0 == -1 ==> r is None
                    &&& out.0 >= 0 ==> (r matches Some(res) && res.index == out.0 && res.count
                        == out.1)
                },
    {
        let name: String = "TrackFX_GetPresetIndex".to_owned();
        let addr = self.loaded_addr(&name);
        let (index, count) = native(addr, track.raw, fx_location.to_raw());
        if index == -1 {
            None
        } else {
            Some(TrackFxGetPresetIndexResult { index: index as u32, count: count as u32 })
        }
    }

    /// Returns the currently focused FX, if any, decoded from the native
    /// output-parameter convention.
    pub fn get_focused_fx<F: FnOnce(u64) -> FocusedFxRaw>(&self, native: F) -> (r: Option<
        GetFocusedFxResult,
    >)
        requires
            self.loaded("GetFocusedFX"@),
            call_requires(native, (self.addr("GetFocusedFX"@),)),
            forall|out: FocusedFxRaw|
                #[trigger] call_ensures(native, (self.addr("GetFocusedFX"@),), out)
                    ==> focused_fx_raw_wf(out),
        ensures
            exists|out: FocusedFxRaw|
                #[trigger] call_ensures(native, (self.addr("GetFocusedFX"@),), out) && r
                    == spec_focused_fx(out),
    {
        let name: String = "GetFocusedFX".to_owned();
        let raw = native(self.loaded_addr(&name));
        interpret_focused_fx(raw)
    }

    /// Returns the last touched FX parameter's location, if any, decoded
    /// from the native output-parameter convention.
    pub fn get_last_touched_fx<F: FnOnce(u64) -> LastTouchedFxRaw>(&self, native: F) -> (r: Option<
        GetLastTouchedFxResult,
    >)
        requires
            self.loaded("GetLastTouchedFX"@),
            call_requires(native, (self.addr("GetLastTouchedFX"@),)),
            forall|out: LastTouchedFxRaw|
                #[trigger] call_ensures(native, (self.addr("GetLastTouchedFX"@),), out)
                    ==> last_touched_fx_raw_wf(out),
        ensures
            exists|out: LastTouchedFxRaw|
                #[trigger] call_ensures(native, (self.addr("GetLastTouchedFX"@),), out) && r
                    == spec_last_touched_fx(out),
    {
        let name: String = "GetLastTouchedFX".to_owned();
        let raw = native(self.loaded_addr(&name));
        interpret_last_touched_fx(raw)
    }
}

impl<S: AudioThreadOnly> Reaper<S> {
    /// Grants access to an already open MIDI input device; an unknown,
    /// closed or disconnected device is an expected, non-exceptional
    /// answer. Only safe from the real-time audio thread.
    pub fn get_midi_input<F: FnOnce(u64, i32) -> u64>(&self, idx: u32, native: F) -> (r: Option<
        MidiInput,
    >)
        requires
            self.loaded("GetMidiInput"@),
            idx <= 0x7fffffff,
            call_requires(native, (self.addr("GetMidiInput"@), idx as i32)),
        ensures
            exists|out: u64|
                #[trigger] call_ensures(native, (self.addr("GetMidiInput"@), idx as i32), out) && r
                    == spec_optional_handle_midi_input(out),
    {
        let name: String = "GetMidiInput".to_owned();
        let addr = self.loaded_addr(&name);
        let out = native(addr, idx as i32);
        MidiInput::optional(out)
    }

    /// Grants access to an already open MIDI output device; an unknown,
    /// closed or disconnected device is an expected, non-exceptional
    /// answer. Only safe from the real-time audio thread.
    pub fn get_midi_output<F: FnOnce(u64, i32) -> u64>(&self, idx: u32, native: F) -> (r: Option<
        MidiOutput,
    >)
        requires
            self.loaded("GetMidiOutput"@),
            idx <= 0x7fffffff,
            call_requires(native, (self.addr("GetMidiOutput"@), idx as i32)),
        ensures
            exists|out: u64|
                #[trigger] call_ensures(native, (self.addr("GetMidiOutput"@), idx as i32), out) && r
                    == spec_optional_handle_midi_output(out),
    {
        let name: String = "GetMidiOutput".to_owned();
        let addr = self.loaded_addr(&name);
        let out = native(addr, idx as i32);
        MidiOutput::optional(out)
    }
}

impl<S> Reaper<S> {
    /// Checks that a handle still refers to a live object in the given
    /// project. Safe from any thread, so no scope bound; direct forwarding
    /// of the native boolean.
    pub fn validate_ptr_2<T: crate::convert::RawHandle, F: FnOnce(u64, u64, u64) -> bool>(
        &self,
        proj: Option<ReaProject>,
        pointer: T,
        native: F,
    ) -> (r: bool)
        requires
            self.loaded("ValidatePtr2"@),
            call_requires(
                native,
                (self.addr("ValidatePtr2"@), spec_option_raw(proj), pointer.spec_raw()),
            ),
        ensures
            exists|out: bool|
                #[trigger] call_ensures(
                    native,
                    (self.addr("ValidatePtr2"@), spec_option_raw(proj), pointer.spec_raw()),
                    out,
                ) && r == out,
    {
        let name: String = "ValidatePtr2".to_owned();
        let addr = self.loaded_addr(&name);
        native(addr, crate::convert::option_into(proj), pointer.raw_value())
    }

    /// Shows a message in the host's scripting console. Safe from any
    /// thread; the message bytes reach the native call unchanged.
    pub fn show_console_msg<F: FnOnce(u64, Vec<u8>) -> ()>(&self, message: Vec<u8>, native: F)
        requires
            self.loaded("ShowConsoleMsg"@),
            call_requires(native, (self.addr("ShowConsoleMsg"@), message)),
        ensures
            call_ensures(native, (self.addr("ShowConsoleMsg"@), message), ()),
    {
        let name: String = "ShowConsoleMsg".to_owned();
        let addr = self.loaded_addr(&name);
        native(addr, message);
    }
}

impl<S: MainThreadOnly> Reaper<S> {
    /// Redraws the arrange view and ruler. Direct forwarding with no
    /// result.
    pub fn update_timeline<F: FnOnce(u64) -> ()>(&self, native: F)
        requires
            self.loaded("UpdateTimeline"@),
            call_requires(native, (self.addr("UpdateTimeline"@),)),
        ensures
            call_ensures(native, (self.addr("UpdateTimeline"@),), ()),
    {
        let name: String = "UpdateTimeline".to_owned();
        let addr = self.loaded_addr(&name);
        native(addr);
    }
}

impl<S: AudioThreadOnly> Reaper<S> {
    /// Grants temporary access to an already open MIDI input device: the
    /// handle is valid only for the duration of the call, so it is never
    /// returned; instead the caller's closure receives it and only that
    /// closure's result leaves. Only safe from the real-time audio thread.
    pub fn use_midi_input<R, F: FnOnce(u64, i32) -> u64, G: FnOnce(MidiInput) -> R>(
        &self,
        idx: u32,
        native: F,
        use_device: G,
    ) -> (r: Option<R>)
        requires
            self.loaded("GetMidiInput"@),
            idx <= 0x7fffffff,
            call_requires(native, (self.addr("GetMidiInput"@), idx as i32)),
            forall|out: u64|
                (#[trigger] call_ensures(native, (self.addr("GetMidiInput"@), idx as i32), out)
                    && out != 0) ==> call_requires(use_device, (MidiInput { raw: out },)),
        ensures
            exists|out: u64|
                #[trigger] call_ensures(native, (self.addr("GetMidiInput"@), idx as i32), out) && (
                if out == 0 {
                    r is None
                } else {
                    r matches Some(x) && call_ensures(use_device, (MidiInput { raw: out },), x)
                }),
    {
        let name: String = "GetMidiInput".to_owned();
        let addr = self.loaded_addr(&name);
        let out = native(addr, idx as i32);
        if out == 0 {
            None
        } else {
            Some(use_device(MidiInput { raw: out }))
        }
    }
}

impl<S: MainThreadOnly> Reaper<S> {
    /// The name of an FX. A zero-size buffer is a programmer error here —
    /// the native call cannot signal "no string wanted" — so a positive
    /// buffer size is a precondition. The success flag decides between an
    /// answer (possibly an empty name) and the not-found error.
    pub fn track_fx_get_fx_name<F: FnOnce(u64, u64, i32, u32) -> (bool, Vec<u8>)>(
        &self,
        track: MediaTrack,
        fx_location: TrackFxLocation,
        buffer_size: u32,
        native: F,
    ) -> (r: Result<Vec<u8>, ()>)
        requires
            self.loaded("TrackFX_GetFXName"@),
            track.wf(),
            buffer_size > 0,
            fx_location matches TrackFxLocation::NormalFxChain(i) ==> i < 0x1000000,
            fx_location matches TrackFxLocation::InputFxChain(i) ==> i < 0x1000000,
            call_requires(
                native,
                (
                    self.addr("TrackFX_GetFXName"@),
                    track.raw,
                    fx_location.spec_to_raw() as i32,
                    buffer_size,
                ),
            ),
        ensures
            exists|out: (bool, Vec<u8>)|
                {
                    &&& #[trigger] call_ensures(
                        native,
                        (
                            self.addr("TrackFX_GetFXName"@),
                            track.raw,
                            fx_location.spec_to_raw() as i32,
                            buffer_size,
                        ),
                        out,
                    )
                    &&& !out.0 ==> r is Err
                    &&& out.0 ==> (r matches Ok(v) && v@ == c_str_bytes(out.1@))
                },
    {
        let name: String = "TrackFX_GetFXName".to_owned();
        let addr = self.loaded_addr(&name);
        let (successful, filled) = native(addr, track.raw, fx_location.to_raw(), buffer_size);
        if successful {
            Ok(crate::convert::c_string_prefix(&filled))
        } else {
            Err(())
        }
    }

    /// The given track's state chunk. The success flag decides between the
    /// chunk text and the error; a zero-size buffer is a programmer error.
    pub fn get_track_state_chunk<F: FnOnce(u64, u64, u32, bool) -> (bool, Vec<u8>)>(
        &self,
        track: MediaTrack,
        buffer_size: u32,
        undo_is_optional: bool,
        native: F,
    ) -> (r: Result<Vec<u8>, ()>)
        requires
            self.loaded("GetTrackStateChunk"@),
            track.wf(),
            buffer_size > 0,
            call_requires(
                native,
                (self.addr("GetTrackStateChunk"@), track.raw, buffer_size, undo_is_optional),
            ),
        ensures
            exists|out: (bool, Vec<u8>)|
                {
                    &&& #[trigger] call_ensures(
                        native,
                        (
                            self.addr("GetTrackStateChunk"@),
                            track.raw,
                            buffer_size,
                            undo_is_optional,
                        ),
                        out,
                    )
                    &&& !out.0 ==> r is Err
                    &&& out.0 ==> (r matches Ok(v) && v@ == c_str_bytes(out.1@))
                },
    {
        let name: String = "GetTrackStateChunk".to_owned();
        let addr = self.loaded_addr(&name);
        let (successful, filled) = native(addr, track.raw, buffer_size, undo_is_optional);
        if successful {
            Ok(crate::convert::c_string_prefix(&filled))
        } else {
            Err(())
        }
    }

    /// Replaces the given track's state chunk; the native success flag
    /// becomes the result.
    pub fn set_track_state_chunk<F: FnOnce(u64, u64, Vec<u8>, bool) -> bool>(
        &self,
        track: MediaTrack,
        chunk: Vec<u8>,
        undo_is_optional: bool,
        native: F,
    ) -> (r: Result<(), ()>)
        requires
            self.loaded("SetTrackStateChunk"@),
            track.wf(),
            call_requires(
                native,
                (self.addr("SetTrackStateChunk"@), track.raw, chunk, undo_is_optional),
            ),
        ensures
            exists|out: bool|
                #[trigger] call_ensures(
                    native,
                    (self.addr("SetTrackStateChunk"@), track.raw, chunk, undo_is_optional),
                    out,
                ) && (r is Ok <==> out),
    {
        let name: String = "SetTrackStateChunk".to_owned();
        let addr = self.loaded_addr(&name);
        let successful = native(addr, track.raw, chunk, undo_is_optional);
        if successful {
            Ok(())
        } else {
            Err(())
        }
    }

    /// Looks a named command up; the zero answer means the command does not
    /// exist, an expected outcome.
    pub fn named_command_lookup<F: FnOnce(u64, Vec<u8>) -> i32>(
        &self,
        command_name: Vec<u8>,
        native: F,
    ) -> (r: Option<u32>)
        requires
            self.loaded("NamedCommandLookup"@),
            call_requires(native, (self.addr("NamedCommandLookup"@), command_name)),
            forall|out: i32|
                #[trigger] call_ensures(
                    native,
                    (self.addr("NamedCommandLookup"@), command_name),
                    out,
                ) ==> out >= 0,
        ensures
            exists|out: i32|
                #[trigger] call_ensures(
                    native,
                    (self.addr("NamedCommandLookup"@), command_name),
                    out,
                ) && (out == 0 ==> r is None) && (out > 0 ==> (r matches Some(id) && id == out)),
    {
        let name: String = "NamedCommandLookup".to_owned();
        let addr = self.loaded_addr(&name);
        let out = native(addr, command_name);
        if out == 0 {
            None
        } else {
            Some(out as u32)
        }
    }

    /// The given track's number: the sentinel answer denotes the master
    /// track, zero a track that is not part of the project, any other
    /// answer the one-based track number.
    pub fn get_media_track_info_tracknumber<F: FnOnce(u64, u64) -> i32>(
        &self,
        tr: MediaTrack,
        native: F,
    ) -> (r: Option<TrackRef>)
        requires
            self.loaded("GetSetMediaTrackInfo"@),
            tr.wf(),
            call_requires(native, (self.addr("GetSetMediaTrackInfo"@), tr.raw)),
            forall|out: i32|
                #[trigger] call_ensures(native, (self.addr("GetSetMediaTrackInfo"@), tr.raw), out)
                    ==> out >= -1,
        ensures
            exists|out: i32|
                {
                    &&& #[trigger] call_ensures(
                        native,
                        (self.addr("GetSetMediaTrackInfo"@), tr.raw),
                        out,
                    )
                    &&& out == -1 ==> r == Some(TrackRef::MasterTrack)
                    &&& out == 0 ==> r is None
                    &&& out > 0 ==> r == Some(TrackRef::NormalTrack((out - 1) as u32))
                },
    {
        let name: String = "GetSetMediaTrackInfo".to_owned();
        let addr = self.loaded_addr(&name);
        let out = native(addr, tr.raw);
        if out == -1 {
            Some(TrackRef::MasterTrack)
        } else if out == 0 {
            None
        } else {
            Some(TrackRef::NormalTrack((out - 1) as u32))
        }
    }
}

} // verus!
