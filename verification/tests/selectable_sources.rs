//! Selectable options and the in-memory option source.

use crudkit_core::selectable::{CrudSelectableSource, MemorySelectableSource, Selectable};

fn option_of(tag: u64, display: &str) -> Selectable {
    Selectable { type_tag: tag, data: display.as_bytes().to_vec(), display: display.to_string() }
}

#[test]
fn source_hands_out_what_was_loaded() {
    let mut source = MemorySelectableSource::new();
    assert!(source.get_selectable().is_none());
    source.set_selectable(vec![option_of(1, "red"), option_of(1, "green")]);
    let options = source.get_selectable().unwrap();
    assert_eq!(options.len(), 2);
    assert_eq!(options[0].display, "red".to_string());
    assert_eq!(options[1].display, "green".to_string());

    // A later load replaces the set.
    source.set_selectable(vec![option_of(1, "blue")]);
    let options = source.get_selectable().unwrap();
    assert_eq!(options.len(), 1);
    assert_eq!(options[0].display, "blue".to_string());
}

#[test]
fn selectable_equality_and_display() {
    let a = option_of(1, "red");
    let b = option_of(1, "red");
    let c = option_of(2, "red");
    assert!(a.selectable_eq(&b));
    assert!(!a.selectable_eq(&c));
    assert!(!a.selectable_eq(&option_of(1, "green")));
    assert_eq!(a.display_string(), "red".to_string());
    assert!(a.selectable_eq(&a.duplicate()));
}
