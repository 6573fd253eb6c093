//! The low-level binding: the loaded function pointer tables.
//!
//! At plugin initialization the host hands over a capability bundle — the
//! plugin context. Loading walks the fixed, generated list of entry-point
//! names once, asks the context's resolver for each, and freezes the result
//! as a [`FunctionPointerTable`]. The loader never fails: entry points an
//! older host lacks are simply recorded as unresolved and only raise an
//! error when someone insists on calling them.

use vstd::prelude::*;

use crate::table::FunctionPointerTable;
use crate::table::Resolver;
use crate::table::is_loaded_from;

verus! {

/// The host-provided capability bundle, supplied once at plugin
/// initialization: the process handle of the plugin module and the
/// function-address resolver's answer set.
#[derive(Debug)]
pub struct PluginContext {
    /// The host process's handle for the plugin module.
    pub process_handle: u64,
    /// The host's function-address resolver.
    pub resolver: Resolver,
}

/// The fixed, generated list of native entry-point names the loader
/// resolves, in declaration order.
pub fn reaper_entry_point_names() -> (r: Vec<String>)
    ensures
        r@.len() == 32,
        r@[0]@ == "EnumProjects"@,
        r@[1]@ == "GetTrack"@,
        r@[2]@ == "ValidatePtr2"@,
        r@[3]@ == "UpdateTimeline"@,
        r@[4]@ == "ShowConsoleMsg"@,
        r@[5]@ == "GetSetMediaTrackInfo"@,
        r@[6]@ == "GetMainHwnd"@,
        r@[7]@ == "ClearConsole"@,
        r@[8]@ == "CountTracks"@,
        r@[9]@ == "DeleteTrack"@,
        r@[10]@ == "InsertTrackAtIndex"@,
        r@[11]@ == "GetMaxMidiInputs"@,
        r@[12]@ == "GetMaxMidiOutputs"@,
        r@[13]@ == "GetMIDIInputName"@,
        r@[14]@ == "GetMIDIOutputName"@,
        r@[15]@ == "GetMidiInput"@,
        r@[16]@ == "GetMidiOutput"@,
        r@[17]@ == "TrackFX_AddByName"@,
        r@[18]@ == "TrackFX_GetPreset"@,
        r@[19]@ == "GetCurrentProjectInLoadSave"@,
        r@[20]@ == "TrackList_UpdateAllExternalSurfaces"@,
        r@[21]@ == "GetSetTrackSendInfo"@,
        r@[22]@ == "SectionFromUniqueID"@,
        r@[23]@ == "KBD_OnMainActionEx"@,
        r@[24]@ == "GetFocusedFX"@,
        r@[25]@ == "GetLastTouchedFX"@,
        r@[26]@ == "TrackFX_GetPresetIndex"@,
        r@[27]@ == "IsInRealTimeAudio"@,
        r@[28]@ == "TrackFX_GetFXName"@,
        r@[29]@ == "GetTrackStateChunk"@,
        r@[30]@ == "SetTrackStateChunk"@,
        r@[31]@ == "NamedCommandLookup"@,
{
    let mut r: Vec<String> = Vec::new();
    r.push("EnumProjects".to_owned());
    r.push("GetTrack".to_owned());
    r.push("ValidatePtr2".to_owned());
    r.push("UpdateTimeline".to_owned());
    r.push("ShowConsoleMsg".to_owned());
    r.push("GetSetMediaTrackInfo".to_owned());
    r.push("GetMainHwnd".to_owned());
    r.push("ClearConsole".to_owned());
    r.push("CountTracks".to_owned());
    r.push("DeleteTrack".to_owned());
    r.push("InsertTrackAtIndex".to_owned());
    r.push("GetMaxMidiInputs".to_owned());
    r.push("GetMaxMidiOutputs".to_owned());
    r.push("GetMIDIInputName".to_owned());
    r.push("GetMIDIOutputName".to_owned());
    r.push("GetMidiInput".to_owned());
    r.push("GetMidiOutput".to_owned());
    r.push("TrackFX_AddByName".to_owned());
    r.push("TrackFX_GetPreset".to_owned());
    r.push("GetCurrentProjectInLoadSave".to_owned());
    r.push("TrackList_UpdateAllExternalSurfaces".to_owned());
    r.push("GetSetTrackSendInfo".to_owned());
    r.push("SectionFromUniqueID".to_owned());
    r.push("KBD_OnMainActionEx".to_owned());
    r.push("GetFocusedFX".to_owned());
    r.push("GetLastTouchedFX".to_owned());
    r.push("TrackFX_GetPresetIndex".to_owned());
    r.push("IsInRealTimeAudio".to_owned());
    r.push("TrackFX_GetFXName".to_owned());
    r.push("GetTrackStateChunk".to_owned());
    r.push("SetTrackStateChunk".to_owned());
    r.push("NamedCommandLookup".to_owned());
    r
}

/// The loaded low-level binding of one plugin session: the frozen function
/// pointer table and the context that produced it.
#[derive(Debug)]
pub struct Reaper {
    /// The function pointer table, populated once at load time.
    pub pointers: FunctionPointerTable,
    /// The plugin context this session was loaded from.
    pub plugin_context: PluginContext,
}

impl Reaper {
    /// Every resolved address in the table is exactly what the resolver
    /// answered for that entry's name; nothing is ever invented.
    pub open spec fn wf(self) -> bool {
        forall|name: Seq<char>|
            (#[trigger] self.pointers.spec_entry(name)) matches Some(a) ==> a
                == self.plugin_context.resolver.spec_resolve(name)
    }

    /// Loads the binding: resolves the whole generated entry-point list
    /// against the context's resolver in one pass. Loading is total; an
    /// entry point the host lacks is recorded as unresolved.
    pub fn load(context: PluginContext) -> (r: Reaper)
        ensures
            r.plugin_context == context,
            r.wf(),
            r.pointers.entries@.len() == 32,
            r.pointers.spec_entry("EnumProjects"@) == Some(
                context.resolver.spec_resolve("EnumProjects"@),
            ),
            r.pointers.spec_entry("GetTrack"@) == Some(
                context.resolver.spec_resolve("GetTrack"@),
            ),
            r.pointers.spec_entry("ValidatePtr2"@) == Some(
                context.resolver.spec_resolve("ValidatePtr2"@),
            ),
            r.pointers.spec_entry("UpdateTimeline"@) == Some(
                context.resolver.spec_resolve("UpdateTimeline"@),
            ),
            r.pointers.spec_entry("ShowConsoleMsg"@) == Some(
                context.resolver.spec_resolve("ShowConsoleMsg"@),
            ),
            r.pointers.spec_entry("GetSetMediaTrackInfo"@) == Some(
                context.resolver.spec_resolve("GetSetMediaTrackInfo"@),
            ),
            r.pointers.spec_entry("GetMainHwnd"@) == Some(
                context.resolver.spec_resolve("GetMainHwnd"@),
            ),
            r.pointers.spec_entry("ClearConsole"@) == Some(
                context.resolver.spec_resolve("ClearConsole"@),
            ),
            r.pointers.spec_entry("CountTracks"@) == Some(
                context.resolver.spec_resolve("CountTracks"@),
            ),
            r.pointers.spec_entry("DeleteTrack"@) == Some(
                context.resolver.spec_resolve("DeleteTrack"@),
            ),
            r.pointers.spec_entry("InsertTrackAtIndex"@) == Some(
                context.resolver.spec_resolve("InsertTrackAtIndex"@),
            ),
            r.pointers.spec_entry("GetMaxMidiInputs"@) == Some(
                context.resolver.spec_resolve("GetMaxMidiInputs"@),
            ),
            r.pointers.spec_entry("GetMaxMidiOutputs"@) == Some(
                context.resolver.spec_resolve("GetMaxMidiOutputs"@),
            ),
            r.pointers.spec_entry("GetMIDIInputName"@) == Some(
                context.resolver.spec_resolve("GetMIDIInputName"@),
            ),
            r.pointers.spec_entry("GetMIDIOutputName"@) == Some(
                context.resolver.spec_resolve("GetMIDIOutputName"@),
            ),
            r.pointers.spec_entry("GetMidiInput"@) == Some(
                context.resolver.spec_resolve("GetMidiInput"@),
            ),
            r.pointers.spec_entry("GetMidiOutput"@) == Some(
                context.resolver.spec_resolve("GetMidiOutput"@),
            ),
            r.pointers.spec_entry("TrackFX_AddByName"@) == Some(
                context.resolver.spec_resolve("TrackFX_AddByName"@),
            ),
            r.pointers.spec_entry("TrackFX_GetPreset"@) == Some(
                context.resolver.spec_resolve("TrackFX_GetPreset"@),
            ),
            r.pointers.spec_entry("GetCurrentProjectInLoadSave"@) == Some(
                context.resolver.spec_resolve("GetCurrentProjectInLoadSave"@),
            ),
            r.pointers.spec_entry("TrackList_UpdateAllExternalSurfaces"@) == Some(
                context.resolver.spec_resolve("TrackList_UpdateAllExternalSurfaces"@),
            ),
            r.pointers.spec_entry("GetSetTrackSendInfo"@) == Some(
                context.resolver.spec_resolve("GetSetTrackSendInfo"@),
            ),
            r.pointers.spec_entry("SectionFromUniqueID"@) == Some(
                context.resolver.spec_resolve("SectionFromUniqueID"@),
            ),
            r.pointers.spec_entry("KBD_OnMainActionEx"@) == Some(
                context.resolver.spec_resolve("KBD_OnMainActionEx"@),
            ),
            r.pointers.spec_entry("GetFocusedFX"@) == Some(
                context.resolver.spec_resolve("GetFocusedFX"@),
            ),
            r.pointers.spec_entry("GetLastTouchedFX"@) == Some(
                context.resolver.spec_resolve("GetLastTouchedFX"@),
            ),
            r.pointers.spec_entry("TrackFX_GetPresetIndex"@) == Some(
                context.resolver.spec_resolve("TrackFX_GetPresetIndex"@),
            ),
            r.pointers.spec_entry("IsInRealTimeAudio"@) == Some(
                context.resolver.spec_resolve("IsInRealTimeAudio"@),
            ),
            r.pointers.spec_entry("TrackFX_GetFXName"@) == Some(
                context.resolver.spec_resolve("TrackFX_GetFXName"@),
            ),
            r.pointers.spec_entry("GetTrackStateChunk"@) == Some(
                context.resolver.spec_resolve("GetTrackStateChunk"@),
            ),
            r.pointers.spec_entry("SetTrackStateChunk"@) == Some(
                context.resolver.spec_resolve("SetTrackStateChunk"@),
            ),
            r.pointers.spec_entry("NamedCommandLookup"@) == Some(
                context.resolver.spec_resolve("NamedCommandLookup"@),
            ),
    {
        let names = reaper_entry_point_names();
        let pointers = FunctionPointerTable::load(&names, &context.resolver);
        proof {
            lemma_loaded_table_is_faithful(pointers, names@, context.resolver);
            assert(names@[0]@ == "EnumProjects"@);
            lemma_declared_entry_is_recorded(pointers, names@, context.resolver, 0);
            assert(names@[1]@ == "GetTrack"@);
            lemma_declared_entry_is_recorded(pointers, names@, context.resolver, 1);
            assert(names@[2]@ == "ValidatePtr2"@);
            lemma_declared_entry_is_recorded(pointers, names@, context.resolver, 2);
            assert(names@[3]@ == "UpdateTimeline"@);
            lemma_declared_entry_is_recorded(pointers, names@, context.resolver, 3);
            assert(names@[4]@ == "ShowConsoleMsg"@);
            lemma_declared_entry_is_recorded(pointers, names@, context.resolver, 4);
            assert(names@[5]@ == "GetSetMediaTrackInfo"@);
            lemma_declared_entry_is_recorded(pointers, names@, context.resolver, 5);
            assert(names@[6]@ == "GetMainHwnd"@);
            lemma_declared_entry_is_recorded(pointers, names@, context.resolver, 6);
            assert(names@[7]@ == "ClearConsole"@);
            lemma_declared_entry_is_recorded(pointers, names@, context.resolver, 7);
            assert(names@[8]@ == "CountTracks"@);
            lemma_declared_entry_is_recorded(pointers, names@, context.resolver, 8);
            assert(names@[9]@ == "DeleteTrack"@);
            lemma_declared_entry_is_recorded(pointers, names@, context.resolver, 9);
            assert(names@[10]@ == "InsertTrackAtIndex"@);
            lemma_declared_entry_is_recorded(pointers, names@, context.resolver, 10);
            assert(names@[11]@ == "GetMaxMidiInputs"@);
            lemma_declared_entry_is_recorded(pointers, names@, context.resolver, 11);
            assert(names@[12]@ == "GetMaxMidiOutputs"@);
            lemma_declared_entry_is_recorded(pointers, names@, context.resolver, 12);
            assert(names@[13]@ == "GetMIDIInputName"@);
            lemma_declared_entry_is_recorded(pointers, names@, context.resolver, 13);
            assert(names@[14]@ == "GetMIDIOutputName"@);
            lemma_declared_entry_is_recorded(pointers, names@, context.resolver, 14);
            assert(names@[15]@ == "GetMidiInput"@);
            lemma_declared_entry_is_recorded(pointers, names@, context.resolver, 15);
            assert(names@[16]@ == "GetMidiOutput"@);
            lemma_declared_entry_is_recorded(pointers, names@, context.resolver, 16);
            assert(names@[17]@ == "TrackFX_AddByName"@);
            lemma_declared_entry_is_recorded(pointers, names@, context.resolver, 17);
            assert(names@[18]@ == "TrackFX_GetPreset"@);
            lemma_declared_entry_is_recorded(pointers, names@, context.resolver, 18);
            assert(names@[19]@ == "GetCurrentProjectInLoadSave"@);
            lemma_declared_entry_is_recorded(pointers, names@, context.resolver, 19);
            assert(names@[20]@ == "TrackList_UpdateAllExternalSurfaces"@);
            lemma_declared_entry_is_recorded(pointers, names@, context.resolver, 20);
            assert(names@[21]@ == "GetSetTrackSendInfo"@);
            lemma_declared_entry_is_recorded(pointers, names@, context.resolver, 21);
            assert(names@[22]@ == "SectionFromUniqueID"@);
            lemma_declared_entry_is_recorded(pointers, names@, context.resolver, 22);
            assert(names@[23]@ == "KBD_OnMainActionEx"@);
            lemma_declared_entry_is_recorded(pointers, names@, context.resolver, 23);
            assert(names@[24]@ == "GetFocusedFX"@);
            lemma_declared_entry_is_recorded(pointers, names@, context.resolver, 24);
            assert(names@[25]@ == "GetLastTouchedFX"@);
            lemma_declared_entry_is_recorded(pointers, names@, context.resolver, 25);
            assert(names@[26]@ == "TrackFX_GetPresetIndex"@);
            lemma_declared_entry_is_recorded(pointers, names@, context.resolver, 26);
            assert(names@[27]@ == "IsInRealTimeAudio"@);
            lemma_declared_entry_is_recorded(pointers, names@, context.resolver, 27);
            assert(names@[28]@ == "TrackFX_GetFXName"@);
            lemma_declared_entry_is_recorded(pointers, names@, context.resolver, 28);
            assert(names@[29]@ == "GetTrackStateChunk"@);
            lemma_declared_entry_is_recorded(pointers, names@, context.resolver, 29);
            assert(names@[30]@ == "SetTrackStateChunk"@);
            lemma_declared_entry_is_recorded(pointers, names@, context.resolver, 30);
            assert(names@[31]@ == "NamedCommandLookup"@);
            lemma_declared_entry_is_recorded(pointers, names@, context.resolver, 31);
        }
        Reaper { pointers, plugin_context: context }
    }
}

/// In a freshly loaded table, every record holds exactly the resolver's
/// answer for its name.
proof fn lemma_loaded_table_is_faithful(
    t: FunctionPointerTable,
    names: Seq<String>,
    resolver: Resolver,
)
    requires
        is_loaded_from(t, names, resolver),
    ensures
        forall|name: Seq<char>|
            (#[trigger] t.spec_entry(name)) matches Some(a) ==> a == resolver.spec_resolve(name),
{
    assert forall|name: Seq<char>| #[trigger] t.spec_entry(name) is Some implies t.spec_entry(
        name,
    )->0 == resolver.spec_resolve(name) by {
        crate::table::lemma_table_entry_faithful(t, names, resolver, name);
    }
}

/// In a freshly loaded table, every declared name has a record, and it holds
/// the resolver's answer.
proof fn lemma_declared_entry_is_recorded(
    t: FunctionPointerTable,
    names: Seq<String>,
    resolver: Resolver,
    i: int,
)
    requires
        is_loaded_from(t, names, resolver),
        0 <= i < names.len(),
    ensures
        t.spec_entry(names[i]@) == Some(resolver.spec_resolve(names[i]@)),
{
    crate::table::lemma_table_entry_faithful(t, names, resolver, names[i]@);
}

/// The fixed, generated list of native window-toolkit entry-point names the
/// Swell loader resolves, in declaration order.
pub fn swell_entry_point_names() -> (r: Vec<String>)
    ensures
        r@.len() == 6,
        r@[0]@ == "CreateDialogParam"@,
        r@[1]@ == "SetWindowText"@,
        r@[2]@ == "GetWindowText"@,
        r@[3]@ == "SendMessage"@,
        r@[4]@ == "PostMessage"@,
        r@[5]@ == "RegisterClipboardFormat"@,
{
    let mut r: Vec<String> = Vec::new();
    r.push("CreateDialogParam".to_owned());
    r.push("SetWindowText".to_owned());
    r.push("GetWindowText".to_owned());
    r.push("SendMessage".to_owned());
    r.push("PostMessage".to_owned());
    r.push("RegisterClipboardFormat".to_owned());
    r
}

/// The loaded window-toolkit binding: the host's portable window functions.
/// A demo instance (for environments without a host) carries no plugin
/// context; asking for the context is then a precondition violation.
#[derive(Debug)]
pub struct Swell {
    /// The window-toolkit function pointer table.
    pub pointers: FunctionPointerTable,
    /// The plugin context, absent on demo instances.
    pub plugin_context: Option<PluginContext>,
}

impl Swell {
    /// Loads the window-toolkit binding from the given context.
    pub fn load(context: PluginContext) -> (r: Swell)
        ensures
            r.plugin_context matches Some(c) && c == context,
            r.pointers.entries@.len() == 6,
            r.pointers.spec_entry("CreateDialogParam"@) == Some(
                context.resolver.spec_resolve("CreateDialogParam"@),
            ),
            r.pointers.spec_entry("SetWindowText"@) == Some(
                context.resolver.spec_resolve("SetWindowText"@),
            ),
            r.pointers.spec_entry("GetWindowText"@) == Some(
                context.resolver.spec_resolve("GetWindowText"@),
            ),
            r.pointers.spec_entry("SendMessage"@) == Some(
                context.resolver.spec_resolve("SendMessage"@),
            ),
            r.pointers.spec_entry("PostMessage"@) == Some(
                context.resolver.spec_resolve("PostMessage"@),
            ),
            r.pointers.spec_entry("RegisterClipboardFormat"@) == Some(
                context.resolver.spec_resolve("RegisterClipboardFormat"@),
            ),
    {
        let names = swell_entry_point_names();
        let pointers = FunctionPointerTable::load(&names, &context.resolver);
        proof {
            assert(names@[0]@ == "CreateDialogParam"@);
            lemma_declared_entry_is_recorded(pointers, names@, context.resolver, 0);
            assert(names@[1]@ == "SetWindowText"@);
            lemma_declared_entry_is_recorded(pointers, names@, context.resolver, 1);
            assert(names@[2]@ == "GetWindowText"@);
            lemma_declared_entry_is_recorded(pointers, names@, context.resolver, 2);
            assert(names@[3]@ == "SendMessage"@);
            lemma_declared_entry_is_recorded(pointers, names@, context.resolver, 3);
            assert(names@[4]@ == "PostMessage"@);
            lemma_declared_entry_is_recorded(pointers, names@, context.resolver, 4);
            assert(names@[5]@ == "RegisterClipboardFormat"@);
            lemma_declared_entry_is_recorded(pointers, names@, context.resolver, 5);
        }
        Swell { pointers, plugin_context: Some(context) }
    }

    /// Gives access to the window-toolkit function pointers.
    pub fn pointers(&self) -> (r: &FunctionPointerTable)
        ensures
            *r == self.pointers,
    {
        &self.pointers
    }

    /// Returns the plug-in context. Demo instances have none; asking them is
    /// a programmer error, so the context's presence is a precondition.
    pub fn plugin_context(&self) -> (r: &PluginContext)
        requires
            self.plugin_context is Some,
        ensures
            *r == self.plugin_context->0,
    {
        self.plugin_context.as_ref().unwrap()
    }
}

} // verus!
