use rustclr::bridge::{AssemblyStore, ResolveError, NOT_FOUND_STATUS, PROVIDED_ASSEMBLY_ID};

#[test]
fn test_bridge_serves_matching_identity() {
    let image = vec![0x4du8, 0x5a, 1, 2, 3];
    let mut store = AssemblyStore::new();
    store.set_current_assembly(&image, "App, Version=1.0.0.0");
    let provided = store.provide_assembly("App, Version=1.0.0.0").unwrap();
    assert_eq!(provided.stream, image);
    assert_eq!(provided.stream.len(), image.len());
    assert_eq!(provided.assembly_id, PROVIDED_ASSEMBLY_ID);
    assert_ne!(provided.assembly_id, 0);
    assert_eq!(provided.context, 0);
}

#[test]
fn test_bridge_rejects_mismatched_identity() {
    let image = vec![1u8, 2, 3];
    let mut store = AssemblyStore::new();
    store.set_current_assembly(&image, "App, Version=1.0.0.0");
    let r = store.provide_assembly("Other, Version=1.0.0.0");
    assert_eq!(r.unwrap_err(), ResolveError::AssemblyNotRecognized);
}

#[test]
fn test_bridge_rejects_when_nothing_staged() {
    let mut store = AssemblyStore::new();
    let r = store.provide_assembly("App, Version=1.0.0.0");
    assert_eq!(r.unwrap_err(), ResolveError::AssemblyNotRecognized);
}

#[test]
fn test_bridge_restaging_replaces_identity() {
    let mut store = AssemblyStore::new();
    store.set_current_assembly(&[1, 2], "A");
    store.set_current_assembly(&[3, 4], "B");
    assert!(store.provide_assembly("A").is_err());
    assert_eq!(store.provide_assembly("B").unwrap().stream, vec![3u8, 4]);
}

#[test]
fn test_bridge_tracks_and_releases_streams() {
    let mut store = AssemblyStore::new();
    store.set_current_assembly(&[9u8; 7], "A");
    store.provide_assembly("A").unwrap();
    store.provide_assembly("A").unwrap();
    assert!(store.provide_assembly("B").is_err());
    assert_eq!(store.clear_current_assembly(), 2);
    assert!(store.provide_assembly("A").is_err());
    assert_eq!(store.clear_current_assembly(), 0);
}

#[test]
fn test_bridge_rejects_module_requests() {
    let store = AssemblyStore::new();
    assert_eq!(store.provide_module(), ResolveError::ModuleNotSupported);
    assert_eq!(store.provide_module().status(), NOT_FOUND_STATUS);
    assert_eq!(
        ResolveError::AssemblyNotRecognized.status(),
        0x80070002
    );
}
