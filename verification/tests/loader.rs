use reaper_rs::low::{reaper_entry_point_names, swell_entry_point_names};
use reaper_rs::table::{FunctionPointerTable, Resolver};

fn names(list: &[&str]) -> Vec<String> {
    list.iter().map(|s| s.to_string()).collect()
}

#[test]
fn loading_records_every_resolver_answer() {
    let mut resolver = Resolver::new();
    resolver.add("CountTracks".to_string(), 0x1000);
    resolver.add("ClearConsole".to_string(), 0x2000);
    let table = FunctionPointerTable::load(
        &names(&["CountTracks", "ClearConsole", "DeleteTrack"]),
        &resolver,
    );
    assert_eq!(table.address_of(&"CountTracks".to_string()), Some(0x1000));
    assert_eq!(table.address_of(&"ClearConsole".to_string()), Some(0x2000));
    assert_eq!(table.address_of(&"DeleteTrack".to_string()), None);
}

#[test]
fn loading_never_fails_on_absent_entry_points() {
    // An empty answer set still loads: every entry exists, unresolved.
    let resolver = Resolver::new();
    let table = FunctionPointerTable::load(&names(&["CountTracks", "DeleteTrack"]), &resolver);
    assert_eq!(table.entries.len(), 2);
    assert!(table.entries.iter().all(|e| e.address.is_none()));
}

#[test]
fn an_undeclared_name_has_no_table_entry() {
    let mut resolver = Resolver::new();
    resolver.add("UpdateTimeline".to_string(), 0x3000);
    let table = FunctionPointerTable::load(&names(&["CountTracks"]), &resolver);
    // The resolver knows the name, but the loader never asked for it.
    assert_eq!(table.address_of(&"UpdateTimeline".to_string()), None);
}

#[test]
fn requiring_a_missing_entry_point_names_it() {
    let resolver = Resolver::new();
    let table = FunctionPointerTable::load(&names(&["DeleteTrack"]), &resolver);
    let err = table
        .require_address(&"DeleteTrack".to_string())
        .unwrap_err();
    assert_eq!(err.function_name, "DeleteTrack");
    let message = err.message();
    assert!(message.contains("DeleteTrack"));
    assert_eq!(message, "native function not loaded: DeleteTrack");
}

#[test]
fn requiring_a_loaded_entry_point_hands_out_its_address() {
    let mut resolver = Resolver::new();
    resolver.add("CountTracks".to_string(), 0xBEE5);
    let table = FunctionPointerTable::load(&names(&["CountTracks"]), &resolver);
    assert_eq!(
        table.require_address(&"CountTracks".to_string()).unwrap(),
        0xBEE5
    );
}

#[test]
fn the_first_resolver_answer_wins() {
    let mut resolver = Resolver::new();
    resolver.add("CountTracks".to_string(), 0x1111);
    resolver.add("CountTracks".to_string(), 0x2222);
    assert_eq!(resolver.resolve(&"CountTracks".to_string()), Some(0x1111));
}

#[test]
fn the_generated_loader_lists_are_fixed_and_duplicate_free() {
    let names = reaper_entry_point_names();
    assert_eq!(names.len(), 32);
    assert!(names.contains(&"CountTracks".to_string()));
    assert!(names.contains(&"DeleteTrack".to_string()));
    assert!(names.contains(&"EnumProjects".to_string()));
    for i in 0..names.len() {
        for j in 0..names.len() {
            if i != j {
                assert_ne!(names[i], names[j]);
            }
        }
    }
    let swell_names = swell_entry_point_names();
    assert_eq!(swell_names.len(), 6);
    assert!(swell_names.contains(&"SendMessage".to_string()));
}
