use reaper_rs::handles::{
    MediaTrack, ProjectRef, SendOrReceive, TrackDefaultsBehavior, TrackFxLocation, TrackRef,
};
use reaper_rs::low::{PluginContext, Reaper as LowReaper};
use reaper_rs::reaper::{
    FocusedFxRaw, GetFocusedFxResult, GetLastTouchedFxResult, LastTouchedFxRaw, Reaper,
};
use reaper_rs::table::Resolver;

const COUNT_TRACKS_ADDR: u64 = 0x1000;
const MAIN_HWND_ADDR: u64 = 0x7777;

fn loaded_reaper() -> Reaper<reaper_rs::scope::MainThreadScope> {
    let mut resolver = Resolver::new();
    resolver.add("CountTracks".to_string(), COUNT_TRACKS_ADDR);
    resolver.add("GetMainHwnd".to_string(), MAIN_HWND_ADDR);
    resolver.add("ClearConsole".to_string(), 0x1100);
    resolver.add("UpdateTimeline".to_string(), 0x1110);
    resolver.add("ValidatePtr2".to_string(), 0x1120);
    resolver.add("ShowConsoleMsg".to_string(), 0x1130);
    resolver.add("TrackFX_GetFXName".to_string(), 0x1140);
    resolver.add("GetTrackStateChunk".to_string(), 0x1150);
    resolver.add("SetTrackStateChunk".to_string(), 0x1160);
    resolver.add("NamedCommandLookup".to_string(), 0x1170);
    resolver.add("EnumProjects".to_string(), 0x1200);
    resolver.add("GetMIDIInputName".to_string(), 0x1300);
    resolver.add("GetMIDIOutputName".to_string(), 0x1350);
    resolver.add("TrackFX_AddByName".to_string(), 0x1400);
    resolver.add("TrackFX_GetPreset".to_string(), 0x1450);
    resolver.add("TrackFX_GetPresetIndex".to_string(), 0x1460);
    resolver.add("GetFocusedFX".to_string(), 0x1500);
    resolver.add("GetLastTouchedFX".to_string(), 0x1550);
    resolver.add("GetSetTrackSendInfo".to_string(), 0x1600);
    resolver.add("GetSetMediaTrackInfo".to_string(), 0x1650);
    resolver.add("SectionFromUniqueID".to_string(), 0x1700);
    resolver.add("GetCurrentProjectInLoadSave".to_string(), 0x1750);
    resolver.add("InsertTrackAtIndex".to_string(), 0x1800);
    resolver.add("GetMaxMidiInputs".to_string(), 0x1850);
    resolver.add("GetMaxMidiOutputs".to_string(), 0x1860);
    resolver.add("GetMidiInput".to_string(), 0x1900);
    resolver.add("GetMidiOutput".to_string(), 0x1910);
    resolver.add("IsInRealTimeAudio".to_string(), 0x1920);
    resolver.add("KBD_OnMainActionEx".to_string(), 0x1930);
    resolver.add(
        "TrackList_UpdateAllExternalSurfaces".to_string(),
        0x1940,
    );
    // DeleteTrack deliberately absent: an older host without that function.
    let context = PluginContext {
        process_handle: 0xCAFE,
        resolver,
    };
    Reaper::new(LowReaper::load(context))
}

#[test]
fn count_tracks_forwards_the_native_result_unchanged() {
    let reaper = loaded_reaper();
    // The accessor must call through the resolved address and hand the
    // native answer back untouched.
    let count = reaper.count_tracks(None, |addr, proj| {
        assert_eq!(addr, COUNT_TRACKS_ADDR);
        assert_eq!(proj, 0);
        3
    });
    assert_eq!(count, 3);
}

#[test]
fn a_missing_function_is_reported_on_use_and_named() {
    let reaper = loaded_reaper();
    // Loading succeeded although DeleteTrack is absent; only asking for it
    // raises the error, and the error names the function.
    let err = reaper
        .low()
        .pointers
        .require_address(&"DeleteTrack".to_string())
        .unwrap_err();
    assert_eq!(err.function_name, "DeleteTrack");
    assert!(err.message().contains("DeleteTrack"));
}

#[test]
fn present_functions_are_resolved_at_load_time() {
    let reaper = loaded_reaper();
    assert_eq!(
        reaper
            .low()
            .pointers
            .address_of(&"CountTracks".to_string()),
        Some(COUNT_TRACKS_ADDR)
    );
    assert_eq!(
        reaper.low().pointers.address_of(&"DeleteTrack".to_string()),
        None
    );
}

#[test]
fn get_main_hwnd_wraps_the_non_null_answer() {
    let reaper = loaded_reaper();
    let hwnd = reaper.get_main_hwnd(|addr| {
        assert_eq!(addr, MAIN_HWND_ADDR);
        0xAB00
    });
    assert_eq!(hwnd.raw, 0xAB00);
}

#[test]
fn unit_forwards_reach_the_native_call() {
    let reaper = loaded_reaper();
    let mut called = false;
    reaper.clear_console(|_addr| {
        called = true;
    });
    assert!(called);
}

#[test]
fn sentinel_query_interprets_minus_one_as_none() {
    let reaper = loaded_reaper();
    let track = MediaTrack { raw: 0x51 };
    let none = reaper.track_fx_add_by_name_query(track, false, |_, _, _, instantiate| {
        assert_eq!(instantiate, 0);
        -1
    });
    assert_eq!(none, None);
    let some = reaper.track_fx_add_by_name_query(track, false, |_, _, _, _| 4);
    assert_eq!(some, Some(4));
}

#[test]
fn sentinel_add_interprets_minus_one_as_failure_and_zero_as_index_zero() {
    let reaper = loaded_reaper();
    let track = MediaTrack { raw: 0x51 };
    let err = reaper.track_fx_add_by_name_add(track, false, true, |_, _, _, instantiate| {
        assert_eq!(instantiate, -1);
        -1
    });
    assert_eq!(err, Err(()));
    let ok = reaper.track_fx_add_by_name_add(track, false, false, |_, _, _, instantiate| {
        assert_eq!(instantiate, 1);
        0
    });
    assert_eq!(ok, Ok(0));
}

#[test]
fn a_zero_size_string_request_reports_no_string() {
    let reaper = loaded_reaper();
    // Whatever bytes the native side would have written are never
    // interpreted for a zero-size request: the answer is "no string
    // requested", not an empty string.
    let result = reaper.get_midi_input_name(2, 0, |_, dev, size| {
        assert_eq!(dev, 2);
        assert_eq!(size, 0);
        (true, vec![0x58, 0x59, 0x5A])
    });
    assert!(result.is_present);
    assert_eq!(result.name, None);
}

#[test]
fn a_filled_string_buffer_is_cut_at_the_terminator() {
    let reaper = loaded_reaper();
    let result = reaper.get_midi_input_name(1, 8, |_, _, _| {
        (true, vec![b'F', b'o', b'o', 0, b'x', b'y'])
    });
    assert_eq!(result.name.as_deref(), Some(&b"Foo"[..]));
}

#[test]
fn an_empty_native_string_is_reported_as_no_name() {
    let reaper = loaded_reaper();
    let result = reaper.get_midi_output_name(1, 8, |_, _, _| (false, vec![0, 1, 1, 1]));
    assert!(!result.is_present);
    assert_eq!(result.name, None);
}

#[test]
fn enum_projects_interprets_the_null_pointer_as_no_project() {
    let reaper = loaded_reaper();
    let none = reaper.enum_projects(ProjectRef::Tab(4), 0, |_, idx, _| {
        assert_eq!(idx, 4);
        (0, vec![])
    });
    assert!(none.is_none());
}

#[test]
fn enum_projects_without_buffer_gives_no_file_path() {
    let reaper = loaded_reaper();
    let result = reaper
        .enum_projects(ProjectRef::Current, 0, |_, idx, size| {
            assert_eq!(idx, -1);
            assert_eq!(size, 0);
            (0x99, vec![])
        })
        .unwrap();
    assert_eq!(result.project.raw, 0x99);
    assert_eq!(result.file_path, None);
}

#[test]
fn enum_projects_hands_out_the_project_file_path() {
    let reaper = loaded_reaper();
    let result = reaper
        .enum_projects(ProjectRef::CurrentlyRendering, 16, |_, idx, _| {
            assert_eq!(idx, 0x40000000);
            (0x99, b"song.rpp\0\x01\x01".to_vec())
        })
        .unwrap();
    assert_eq!(result.file_path.as_deref(), Some(&b"song.rpp"[..]));
}

#[test]
fn preset_query_keeps_the_match_flag_and_name_separate() {
    let reaper = loaded_reaper();
    let track = MediaTrack { raw: 0x51 };
    let location = TrackFxLocation::NormalFxChain(2);
    let result = reaper.track_fx_get_preset(track, location, 12, |_, tr, fx, _| {
        assert_eq!(tr, 0x51);
        assert_eq!(fx, 2);
        (false, b"Warm Pad\0\x01".to_vec())
    });
    assert!(!result.state_matches_preset);
    assert_eq!(result.name.as_deref(), Some(&b"Warm Pad"[..]));
}

#[test]
fn input_fx_chain_locations_use_the_reserved_flag() {
    let reaper = loaded_reaper();
    let track = MediaTrack { raw: 0x51 };
    let location = TrackFxLocation::InputFxChain(3);
    let result = reaper.track_fx_get_preset(track, location, 0, |_, _, fx, _| {
        assert_eq!(fx, 0x1000003);
        (true, vec![])
    });
    assert!(result.state_matches_preset);
    assert_eq!(result.name, None);
}

#[test]
fn preset_index_sentinel_means_none() {
    let reaper = loaded_reaper();
    let track = MediaTrack { raw: 0x51 };
    let location = TrackFxLocation::NormalFxChain(0);
    let none = reaper.track_fx_get_preset_index(track, location, |_, _, _| (-1, 0));
    assert_eq!(none, None);
    let some = reaper
        .track_fx_get_preset_index(track, location, |_, _, _| (2, 9))
        .unwrap();
    assert_eq!(some.index, 2);
    assert_eq!(some.count, 9);
}

#[test]
fn focused_fx_decodes_all_three_answers() {
    let reaper = loaded_reaper();
    let none = reaper.get_focused_fx(|_| FocusedFxRaw {
        result: 0,
        tracknumber: 0,
        itemnumber: 0,
        fxnumber: 0,
    });
    assert_eq!(none, None);

    let track_fx = reaper.get_focused_fx(|_| FocusedFxRaw {
        result: 1,
        tracknumber: 0,
        itemnumber: 0,
        fxnumber: 0x1000005,
    });
    assert_eq!(
        track_fx,
        Some(GetFocusedFxResult::TrackFx {
            track_ref: TrackRef::MasterTrack,
            fx_location: TrackFxLocation::InputFxChain(5),
        })
    );

    let take_fx = reaper.get_focused_fx(|_| FocusedFxRaw {
        result: 2,
        tracknumber: 3,
        itemnumber: 2,
        fxnumber: 0x00070002,
    });
    assert_eq!(
        take_fx,
        Some(GetFocusedFxResult::TakeFx {
            track_index: 2,
            item_index: 2,
            take_index: 7,
            fx_index: 2,
        })
    );
}

#[test]
fn last_touched_fx_decodes_track_and_take_answers() {
    let reaper = loaded_reaper();
    let none = reaper.get_last_touched_fx(|_| LastTouchedFxRaw {
        is_valid: false,
        tracknumber: 0,
        fxnumber: 0,
        paramnumber: 0,
    });
    assert_eq!(none, None);

    let track_fx = reaper.get_last_touched_fx(|_| LastTouchedFxRaw {
        is_valid: true,
        tracknumber: 2,
        fxnumber: 3,
        paramnumber: 4,
    });
    assert_eq!(
        track_fx,
        Some(GetLastTouchedFxResult::TrackFx {
            track_ref: TrackRef::NormalTrack(1),
            fx_location: TrackFxLocation::NormalFxChain(3),
            param_index: 4,
        })
    );

    // High half of the track number holds the one-based item number.
    let take_fx = reaper.get_last_touched_fx(|_| LastTouchedFxRaw {
        is_valid: true,
        tracknumber: (5 << 16) | 2,
        fxnumber: 0x00030001,
        paramnumber: 6,
    });
    assert_eq!(
        take_fx,
        Some(GetLastTouchedFxResult::TakeFx {
            track_index: 1,
            item_index: 4,
            take_index: 3,
            fx_index: 1,
            param_index: 6,
        })
    );
}

#[test]
fn desttrack_query_rejects_the_null_answer() {
    let reaper = loaded_reaper();
    let track = MediaTrack { raw: 0x51 };
    let err = reaper.get_track_send_info_desttrack(track, SendOrReceive::Send, 0, |_, _, cat, _| {
        assert_eq!(cat, 0);
        0
    });
    assert_eq!(err, Err(()));
    let ok = reaper
        .get_track_send_info_desttrack(track, SendOrReceive::Receive, 1, |_, _, cat, idx| {
            assert_eq!(cat, -1);
            assert_eq!(idx, 1);
            0x61
        })
        .unwrap();
    assert_eq!(ok.raw, 0x61);
}

#[test]
fn nullable_pointer_accessors_answer_with_options() {
    let reaper = loaded_reaper();
    let track = MediaTrack { raw: 0x51 };
    assert!(reaper
        .get_media_track_info_partrack(track, |_, _| 0)
        .is_none());
    assert_eq!(
        reaper
            .get_media_track_info_partrack(track, |_, _| 0x42)
            .unwrap()
            .raw,
        0x42
    );
    assert!(reaper.get_media_track_info_project(track, |_, _| 0).is_none());
    assert!(reaper.section_from_unique_id(7, |_, id| {
        assert_eq!(id, 7);
        0
    }).is_none());
    assert!(reaper
        .get_current_project_in_load_save(|_| 0x43)
        .is_some());
}

#[test]
fn direct_count_forwards() {
    let reaper = loaded_reaper();
    assert_eq!(reaper.get_max_midi_inputs(|_| 64), 64);
    assert_eq!(reaper.get_max_midi_outputs(|_| 0), 0);
    let mut inserted_at = None;
    reaper.insert_track_at_index(5, TrackDefaultsBehavior::AddDefaultEnvAndFx, |_, idx, defaults| {
        inserted_at = Some((idx, defaults));
    });
    assert_eq!(inserted_at, Some((5, true)));
    let mut notified = false;
    reaper.track_list_update_all_external_surfaces(|_| {
        notified = true;
    });
    assert!(notified);
}

#[test]
fn scoped_handles_unlock_their_own_method_sets() {
    // A main-thread handle serves main-thread-only calls; the real-time
    // handle, obtained only through the explicit conversion, serves the
    // real-time-only calls. A handle of the wrong scope does not even have
    // the other set's methods; that mismatch fails to compile.
    let reaper = loaded_reaper();
    assert_eq!(reaper.count_tracks(None, |_, _| 2), 2);
    assert!(!reaper.is_in_real_time_audio(|_| 0));

    // Both handles live side by side over the same loaded table.
    let rt = reaper.create_real_time_reaper();
    assert_eq!(reaper.count_tracks(None, |_, _| 2), 2);
    assert!(rt.is_in_real_time_audio(|_| 1));
    let input = rt.get_midi_input(3, |_, idx| {
        assert_eq!(idx, 3);
        0x71
    });
    assert_eq!(input.unwrap().raw, 0x71);
    assert!(rt.get_midi_output(3, |_, _| 0).is_none());
}

#[test]
fn kbd_action_dispatch_converts_the_value_encoding() {
    let reaper = loaded_reaper();
    let mut seen = None;
    let result = reaper.kbd_on_main_action_ex(
        40001,
        reaper_rs::convert::KbdActionValue::AbsoluteHighRes(0x1234),
        None,
        None,
        |_, cmd, val, valhw, relmode, hwnd, proj| {
            seen = Some((cmd, val, valhw, relmode, hwnd, proj));
            7
        },
    );
    assert_eq!(result, 7);
    // The fourteen bits split over the two value slots.
    assert_eq!(seen, Some((40001, 0x24, 0x34, 0, 0, 0)));
}

#[test]
fn thread_safe_calls_need_no_particular_scope() {
    let reaper = loaded_reaper();
    let track = MediaTrack { raw: 0x51 };
    assert!(reaper.validate_ptr_2(None, track, |_, proj, ptr| {
        assert_eq!(proj, 0);
        assert_eq!(ptr, 0x51);
        true
    }));
    let rt = loaded_reaper().into_real_time();
    assert!(!rt.validate_ptr_2(None, track, |_, _, _| false));

    let mut shown = None;
    reaper.show_console_msg(b"hello\n".to_vec(), |_, msg| {
        shown = Some(msg);
    });
    assert_eq!(shown.as_deref(), Some(&b"hello\n"[..]));
}

#[test]
fn update_timeline_forwards() {
    let reaper = loaded_reaper();
    let mut called = false;
    reaper.update_timeline(|_| {
        called = true;
    });
    assert!(called);
}

#[test]
fn transient_device_access_never_hands_the_handle_out() {
    let rt = loaded_reaper().into_real_time();
    // Absent device: the consuming closure never runs.
    let none: Option<u64> = rt.use_midi_input(9, |_, _| 0, |_| panic!("no device to use"));
    assert!(none.is_none());
    // Present device: only the closure's result leaves.
    let read = rt.use_midi_input(3, |_, _| 0x71, |dev| dev.raw + 1);
    assert_eq!(read, Some(0x72));
}

#[test]
fn the_loaded_count_reflects_the_resolver() {
    let mut resolver = Resolver::new();
    resolver.add("CountTracks".to_string(), 0x1000);
    resolver.add("ClearConsole".to_string(), 0x1100);
    let context = PluginContext {
        process_handle: 1,
        resolver,
    };
    let reaper = Reaper::new(LowReaper::load(context));
    // Two of the declared entry points were resolved, the rest were not.
    assert_eq!(reaper.low().pointers.loaded_count(), 2);
    assert_eq!(loaded_reaper().low().pointers.loaded_count(), 30);
}

#[test]
fn fx_name_query_distinguishes_failure_from_an_empty_name() {
    let reaper = loaded_reaper();
    let track = MediaTrack { raw: 0x51 };
    let location = TrackFxLocation::NormalFxChain(0);
    let err = reaper.track_fx_get_fx_name(track, location, 16, |_, _, _, _| (false, vec![]));
    assert_eq!(err, Err(()));
    let ok = reaper.track_fx_get_fx_name(track, location, 16, |_, _, _, _| {
        (true, b"ReaComp\0\x01".to_vec())
    });
    assert_eq!(ok.as_deref(), Ok(&b"ReaComp"[..]));
}

#[test]
fn track_state_chunk_round_trips_as_bytes() {
    let reaper = loaded_reaper();
    let track = MediaTrack { raw: 0x51 };
    let chunk = reaper
        .get_track_state_chunk(track, 64, true, |_, tr, size, undo_opt| {
            assert_eq!(tr, 0x51);
            assert_eq!(size, 64);
            assert!(undo_opt);
            (true, b"<TRACK\n>\0\x01".to_vec())
        })
        .unwrap();
    assert_eq!(chunk, b"<TRACK\n>".to_vec());
    let mut written = None;
    let set = reaper.set_track_state_chunk(track, chunk, false, |_, _, c, _| {
        written = Some(c);
        true
    });
    assert_eq!(set, Ok(()));
    assert_eq!(written.as_deref(), Some(&b"<TRACK\n>"[..]));
    let failed = reaper.set_track_state_chunk(track, vec![], false, |_, _, _, _| false);
    assert_eq!(failed, Err(()));
}

#[test]
fn named_command_lookup_answers_zero_for_unknown_commands() {
    let reaper = loaded_reaper();
    let none = reaper.named_command_lookup(b"_NO_SUCH_COMMAND".to_vec(), |_, _| 0);
    assert_eq!(none, None);
    let some = reaper.named_command_lookup(b"_SWS_ABOUT".to_vec(), |_, name| {
        assert_eq!(name, b"_SWS_ABOUT".to_vec());
        50000
    });
    assert_eq!(some, Some(50000));
}

#[test]
fn track_numbers_decode_master_missing_and_normal() {
    let reaper = loaded_reaper();
    let track = MediaTrack { raw: 0x51 };
    assert_eq!(
        reaper.get_media_track_info_tracknumber(track, |_, _| -1),
        Some(TrackRef::MasterTrack)
    );
    assert_eq!(reaper.get_media_track_info_tracknumber(track, |_, _| 0), None);
    assert_eq!(
        reaper.get_media_track_info_tracknumber(track, |_, _| 4),
        Some(TrackRef::NormalTrack(3))
    );
}

#[test]
fn duplicated_handles_answer_every_lookup_alike() {
    let reaper = loaded_reaper();
    let rt = reaper.create_real_time_reaper();
    for name in reaper_rs::low::reaper_entry_point_names() {
        assert_eq!(
            reaper.low().pointers.address_of(&name),
            rt.low().pointers.address_of(&name)
        );
    }
    assert_eq!(
        reaper.low().pointers.loaded_count(),
        rt.low().pointers.loaded_count()
    );
}
