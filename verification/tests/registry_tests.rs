use bicat::naming::{final_file_name, temp_file_name};
use bicat::registry::TempFileRegistry;

#[test]
fn new_registry_is_empty() {
    let mut registry = TempFileRegistry::new();
    assert_eq!(registry.len(), 0);
    assert!(registry.is_empty());
    assert!(!registry.contains("a.mp3.tmp"));
    assert!(registry.drain().is_empty());
}

#[test]
fn register_then_unregister() {
    let mut registry = TempFileRegistry::new();
    assert!(registry.register("a-b.mp3.tmp"));
    assert!(registry.contains("a-b.mp3.tmp"));
    assert_eq!(registry.len(), 1);
    assert!(!registry.is_empty());
    assert!(registry.unregister("a-b.mp3.tmp"));
    assert!(!registry.contains("a-b.mp3.tmp"));
    assert_eq!(registry.len(), 0);
    assert!(!registry.unregister("a-b.mp3.tmp"));
}

#[test]
fn registering_twice_holds_once() {
    let mut registry = TempFileRegistry::new();
    assert!(registry.register("a.mp3.tmp"));
    assert!(registry.register("a.mp3.tmp"));
    assert_eq!(registry.len(), 1);
    assert_eq!(registry.drain(), vec!["a.mp3.tmp".to_string()]);
}

#[test]
fn final_names_are_refused() {
    let mut registry = TempFileRegistry::new();
    assert!(!registry.register("a-b.mp3"));
    assert!(!registry.register(&final_file_name("title", "owner")));
    assert!(!registry.register(""));
    assert_eq!(registry.len(), 0);
    assert!(registry.register(&temp_file_name("title", "owner")));
    assert_eq!(registry.len(), 1);
}

#[test]
fn unregister_leaves_the_others() {
    let mut registry = TempFileRegistry::new();
    registry.register("a.mp3.tmp");
    registry.register("b.mp3.tmp");
    registry.register("c.mp3.tmp");
    assert!(registry.unregister("b.mp3.tmp"));
    assert!(!registry.unregister("d.mp3.tmp"));
    assert_eq!(registry.len(), 2);
    assert!(registry.contains("a.mp3.tmp"));
    assert!(!registry.contains("b.mp3.tmp"));
    assert!(registry.contains("c.mp3.tmp"));
}

#[test]
fn drain_hands_out_exactly_what_is_registered() {
    let mut registry = TempFileRegistry::new();
    registry.register("one.mp3.tmp");
    registry.register("two.mp3.tmp");
    registry.register("three.mp3.tmp");
    registry.register("two.mp3.tmp");
    registry.register("two.mp3");
    registry.unregister("one.mp3.tmp");
    let mut paths = registry.drain();
    paths.sort();
    assert_eq!(paths, vec!["three.mp3.tmp".to_string(), "two.mp3.tmp".to_string()]);
    assert!(paths.iter().all(|path| path.ends_with(".tmp") && !path.ends_with(".mp3")));
    assert!(registry.is_empty());
    assert_eq!(registry.len(), 0);
    assert!(registry.drain().is_empty());
}
