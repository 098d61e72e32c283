use ndi::registry::{lib_ref, lib_unwrap, load, try_with_library, with_library, NotLoaded, Registry};

#[derive(Debug, PartialEq)]
struct Table {
    name: &'static str,
    version: u32,
}

fn first() -> Table {
    Table { name: "first", version: 1 }
}

fn second() -> Table {
    Table { name: "second", version: 2 }
}

#[test]
fn new_registry_is_empty() {
    let registry: Registry<Table> = Registry::new();
    assert!(!registry.is_loaded());
    assert_eq!(lib_ref(&registry), &None);
}

#[test]
fn successful_load_fills_the_slot() {
    let mut registry = Registry::new();
    let outcome = load::<Table, String>(&mut registry, Ok(first()));
    assert_eq!(outcome, Ok(()));
    assert!(registry.is_loaded());
    assert_eq!(lib_ref(&registry), &Some(first()));
    assert_eq!(lib_unwrap(&registry), &first());
}

#[test]
fn failed_load_on_empty_slot_reports_the_error_and_stays_empty() {
    let mut registry: Registry<Table> = Registry::new();
    let outcome = load(&mut registry, Err("no such file".to_string()));
    assert_eq!(outcome, Err("no such file".to_string()));
    assert!(!registry.is_loaded());
    assert_eq!(lib_ref(&registry), &None);
}

#[test]
fn failed_load_keeps_the_library_loaded_before() {
    let mut registry = Registry::new();
    assert_eq!(load::<Table, String>(&mut registry, Ok(first())), Ok(()));
    let outcome = load(&mut registry, Err("bad path".to_string()));
    assert_eq!(outcome, Err("bad path".to_string()));
    assert!(registry.is_loaded());
    assert_eq!(lib_unwrap(&registry), &first());
    let version = with_library(&registry, |table: &Table| table.version);
    assert_eq!(version, 1);
}

#[test]
fn second_load_replaces_the_first() {
    let mut registry = Registry::new();
    assert_eq!(load::<Table, String>(&mut registry, Ok(first())), Ok(()));
    assert_eq!(load::<Table, String>(&mut registry, Ok(second())), Ok(()));
    assert_eq!(lib_unwrap(&registry), &second());
    let seen = with_library(&registry, |table: &Table| (table.name, table.version));
    assert_eq!(seen, ("second", 2));
}

#[test]
fn every_read_after_a_load_sees_the_same_library() {
    let mut registry = Registry::new();
    assert_eq!(load::<Table, u8>(&mut registry, Ok(second())), Ok(()));
    for _ in 0..16 {
        assert_eq!(lib_unwrap(&registry), &second());
        assert_eq!(with_library(&registry, |table: &Table| table.version), 2);
        assert_eq!(try_with_library(&registry, |table: &Table| table.name), Ok("second"));
    }
    assert!(registry.is_loaded());
}

#[test]
fn reads_from_several_borrowers_agree() {
    let mut registry = Registry::new();
    assert_eq!(load::<Table, u8>(&mut registry, Ok(first())), Ok(()));
    let one = &registry;
    let two = &registry;
    assert_eq!(lib_unwrap(one), lib_unwrap(two));
    assert_eq!(lib_unwrap(one).name, "first");
}

#[test]
fn with_library_returns_what_the_operation_returns() {
    let mut registry = Registry::new();
    assert_eq!(load::<u32, ()>(&mut registry, Ok(20)), Ok(()));
    assert_eq!(with_library(&registry, |library: &u32| u64::from(*library) * 3 + 1), 61);
}

#[test]
fn use_before_load_is_reported_and_runs_nothing() {
    let registry: Registry<Table> = Registry::new();
    let mut ran = false;
    let result = try_with_library(&registry, |_table: &Table| {
        ran = true;
        0u8
    });
    assert_eq!(result, Err(NotLoaded));
    assert!(!ran);
}

#[test]
fn use_after_failed_first_load_is_still_reported() {
    let mut registry: Registry<Table> = Registry::new();
    assert_eq!(load(&mut registry, Err(2i32)), Err(2));
    assert_eq!(load(&mut registry, Err(3i32)), Err(3));
    let result = try_with_library(&registry, |table: &Table| table.version);
    assert_eq!(result, Err(NotLoaded));
}

#[test]
fn not_loaded_message_text() {
    assert_eq!(NotLoaded.message(), "Expected library to be loaded.");
}

#[test]
fn slot_holds_the_last_success_after_a_mixed_series() {
    let mut registry = Registry::new();
    assert_eq!(load::<u32, &str>(&mut registry, Err("a")), Err("a"));
    assert_eq!(load::<u32, &str>(&mut registry, Ok(1)), Ok(()));
    assert_eq!(load::<u32, &str>(&mut registry, Err("b")), Err("b"));
    assert_eq!(load::<u32, &str>(&mut registry, Ok(2)), Ok(()));
    assert_eq!(load::<u32, &str>(&mut registry, Err("c")), Err("c"));
    assert_eq!(load::<u32, &str>(&mut registry, Err("d")), Err("d"));
    assert_eq!(lib_ref(&registry), &Some(2));
}
