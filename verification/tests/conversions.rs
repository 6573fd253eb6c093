use reaper_rs::convert::{
    c_string_prefix, interpret_sentinel_index, interpret_string_buffer, lparam_is_string,
    ok_if_one, option_into, KbdActionValue, CB_ADDSTRING, CB_INSERTSTRING,
};
use reaper_rs::handles::{
    track_ref_of_tracknumber, MediaTrack, ProjectRef, ReaProject, TrackFxLocation, TrackRef,
};

#[test]
fn sentinel_minus_one_is_a_descriptive_failure() {
    let err = interpret_sentinel_index(-1).unwrap_err();
    assert!(!err.message.is_empty());
    assert_eq!(err.message, "native call signaled failure");
}

#[test]
fn sentinel_zero_is_a_success_carrying_zero() {
    // Index zero is a valid answer, distinct from the failure sentinel.
    assert_eq!(interpret_sentinel_index(0).unwrap(), 0);
    assert_eq!(interpret_sentinel_index(17).unwrap(), 17);
}

#[test]
fn ok_if_one_accepts_exactly_one() {
    assert!(ok_if_one(1).is_ok());
    assert!(ok_if_one(0).is_err());
    assert!(ok_if_one(2).is_err());
    assert!(ok_if_one(-1).is_err());
}

#[test]
fn option_into_uses_the_null_address_for_absence() {
    assert_eq!(option_into::<ReaProject>(None), 0);
    assert_eq!(option_into(Some(ReaProject { raw: 0x77 })), 0x77);
    assert_eq!(option_into(Some(MediaTrack { raw: 0x99 })), 0x99);
}

#[test]
fn c_string_prefix_cuts_at_the_first_null_byte() {
    assert_eq!(c_string_prefix(&b"abc\0def".to_vec()), b"abc".to_vec());
    assert_eq!(c_string_prefix(&b"\0def".to_vec()), Vec::<u8>::new());
    assert_eq!(c_string_prefix(&b"abc".to_vec()), b"abc".to_vec());
    assert_eq!(c_string_prefix(&Vec::new()), Vec::<u8>::new());
}

#[test]
fn an_empty_native_string_is_no_string() {
    assert_eq!(interpret_string_buffer(&b"\0\x01\x01".to_vec()), None);
    assert_eq!(
        interpret_string_buffer(&b"hi\0\x01".to_vec()),
        Some(b"hi".to_vec())
    );
}

#[test]
fn only_string_carrying_messages_need_conversion() {
    assert!(lparam_is_string(CB_ADDSTRING));
    assert!(lparam_is_string(CB_INSERTSTRING));
    assert!(!lparam_is_string(0x100));
    assert!(!lparam_is_string(0));
}

#[test]
fn kbd_action_values_follow_the_native_triple_convention() {
    assert_eq!(KbdActionValue::AbsoluteLowRes(100).to_raw(), (100, -1, 0));
    assert_eq!(
        KbdActionValue::AbsoluteHighRes(16383).to_raw(),
        (0x7f, 0x7f, 0)
    );
    assert_eq!(KbdActionValue::AbsoluteHighRes(0).to_raw(), (0, 0, 0));
    assert_eq!(KbdActionValue::Relative1(64).to_raw(), (64, -1, 1));
    assert_eq!(KbdActionValue::Relative2(1).to_raw(), (1, -1, 2));
    assert_eq!(KbdActionValue::Relative3(127).to_raw(), (127, -1, 3));
}

#[test]
fn project_references_follow_the_native_index_convention() {
    assert_eq!(ProjectRef::Current.to_raw(), -1);
    assert_eq!(ProjectRef::CurrentlyRendering.to_raw(), 0x40000000);
    assert_eq!(ProjectRef::Tab(0).to_raw(), 0);
    assert_eq!(ProjectRef::Tab(12).to_raw(), 12);
}

#[test]
fn track_numbers_are_one_based_with_zero_for_the_master_track() {
    assert_eq!(track_ref_of_tracknumber(0), TrackRef::MasterTrack);
    assert_eq!(track_ref_of_tracknumber(1), TrackRef::NormalTrack(0));
    assert_eq!(track_ref_of_tracknumber(9), TrackRef::NormalTrack(8));
}

#[test]
fn fx_locations_round_trip_through_the_native_encoding() {
    let normal = TrackFxLocation::NormalFxChain(7);
    let input = TrackFxLocation::InputFxChain(7);
    assert_eq!(normal.to_raw(), 7);
    assert_eq!(input.to_raw(), 0x1000007);
    assert_eq!(TrackFxLocation::try_from_raw(7), Some(normal));
    assert_eq!(TrackFxLocation::try_from_raw(0x1000007), Some(input));
    assert_eq!(TrackFxLocation::try_from_raw(-1), None);
    assert_eq!(TrackFxLocation::try_from_raw(0x2000000), None);
}

#[test]
fn null_handles_become_none() {
    assert!(ReaProject::optional(0).is_none());
    assert_eq!(ReaProject::optional(5).unwrap().raw, 5);
    assert!(MediaTrack::optional(0).is_none());
    assert!(MediaTrack::required(0).is_err());
    assert_eq!(MediaTrack::required(6).unwrap().raw, 6);
}
