use reaper_rs::low::{PluginContext, Reaper as LowReaper, Swell};
use reaper_rs::midi_device::MidiInputDevice;
use reaper_rs::reaper::Reaper;
use reaper_rs::table::Resolver;

fn main_reaper() -> Reaper<reaper_rs::scope::MainThreadScope> {
    let mut resolver = Resolver::new();
    resolver.add("GetMIDIInputName".to_string(), 0x1300);
    let context = PluginContext {
        process_handle: 1,
        resolver,
    };
    Reaper::new(LowReaper::load(context))
}

#[test]
fn a_device_keeps_its_identifier() {
    let device = MidiInputDevice::new(5);
    assert_eq!(device.get_id(), 5);
    assert_eq!(device, MidiInputDevice::new(5));
}

#[test]
fn a_connected_device_is_available() {
    let reaper = main_reaper();
    let device = MidiInputDevice::new(2);
    assert!(device.is_available(&reaper, |_, dev, size| {
        assert_eq!(dev, 2);
        assert_eq!(size, 2);
        (true, vec![0])
    }));
}

#[test]
fn a_known_but_disconnected_device_is_available_through_its_name() {
    let reaper = main_reaper();
    let device = MidiInputDevice::new(2);
    // Not present, but the host still reports a name for it.
    assert!(device.is_available(&reaper, |_, _, _| (false, b"K\0".to_vec())));
}

#[test]
fn an_unknown_device_is_not_available() {
    let reaper = main_reaper();
    let device = MidiInputDevice::new(2);
    assert!(!device.is_available(&reaper, |_, _, _| (false, b"\0\x01".to_vec())));
}

#[test]
fn connectivity_follows_the_presence_flag_alone() {
    let reaper = main_reaper();
    let device = MidiInputDevice::new(7);
    assert!(device.is_connected(&reaper, |_, dev, size| {
        assert_eq!(dev, 7);
        assert_eq!(size, 1);
        (true, vec![0])
    }));
    assert!(!device.is_connected(&reaper, |_, _, _| (false, b"K\0".to_vec())));
}

#[test]
fn the_window_toolkit_loads_like_the_main_binding() {
    let mut resolver = Resolver::new();
    resolver.add("SetWindowText".to_string(), 0x2100);
    resolver.add("SendMessage".to_string(), 0x2200);
    let context = PluginContext {
        process_handle: 0xAA,
        resolver,
    };
    let swell = Swell::load(context);
    assert_eq!(
        swell.pointers().address_of(&"SetWindowText".to_string()),
        Some(0x2100)
    );
    assert_eq!(
        swell.pointers().address_of(&"GetWindowText".to_string()),
        None
    );
    assert_eq!(swell.plugin_context().process_handle, 0xAA);
}
