//! The persisted stores: restore semantics, lookup, and the
//! change-detection gate that makes identical writes notify only once.

use crudkit_core::ids::{IdField, IdValue, SerializableId};
use crudkit_core::stores::instance::{CrudInstanceConfig, InstanceStore};
use crudkit_core::stores::instance_views::InstanceViewsStore;
use crudkit_core::stores::{StorageError, StoreValue};
use crudkit_core::views::SerializableCrudView;

fn edit_view_of(id: u32) -> SerializableCrudView {
    SerializableCrudView::Edit(SerializableId {
        fields: vec![IdField { name: "id".to_string(), value: IdValue::U32(id) }],
    })
}

#[test]
fn restore_failure_degrades_to_empty() {
    let store = InstanceViewsStore::new(Err(StorageError { message: "quota".to_string() }));
    assert!(store.get("articles").is_none());
    let store = InstanceViewsStore::new(Ok(None));
    assert!(store.get("articles").is_none());
}

#[test]
fn restore_keeps_the_stored_map() {
    let mut persisted = InstanceViewsStore::default();
    persisted.save("articles".to_string(), edit_view_of(7));
    let store = InstanceViewsStore::new(Ok(Some(persisted)));
    let got = store.get("articles").unwrap();
    assert!(got.view_eq(&edit_view_of(7)));
}

#[test]
fn get_is_a_pure_lookup() {
    let mut store = InstanceViewsStore::default();
    store.save("a".to_string(), SerializableCrudView::List);
    assert!(store.get("a").unwrap().view_eq(&SerializableCrudView::List));
    assert!(store.get("b").is_none());
    // Looking up twice yields the same answer; nothing was mutated.
    assert!(store.get("a").unwrap().view_eq(&SerializableCrudView::List));
}

#[test]
fn save_upserts() {
    let mut store = InstanceViewsStore::default();
    store.save("a".to_string(), SerializableCrudView::List);
    store.save("a".to_string(), edit_view_of(3));
    assert!(store.get("a").unwrap().view_eq(&edit_view_of(3)));
    store.save("b".to_string(), SerializableCrudView::Create);
    assert!(store.get("b").unwrap().view_eq(&SerializableCrudView::Create));
    assert!(store.get("a").unwrap().view_eq(&edit_view_of(3)));
}

#[test]
fn idempotent_store_writes_notify_once() {
    let mut store = InstanceViewsStore::default();
    let before = InstanceViewsStore::new(Ok(Some(duplicate_views_store(&store))));

    // The first write changes the observable state: notify.
    store.save("articles".to_string(), edit_view_of(7));
    assert!(store.changed(&before));

    // The identical second write does not: no second notification.
    let after_first = duplicate_views_store(&store);
    store.save("articles".to_string(), edit_view_of(7));
    assert!(!store.changed(&after_first));

    // A genuinely different write notifies again.
    let after_second = duplicate_views_store(&store);
    store.save("articles".to_string(), edit_view_of(8));
    assert!(store.changed(&after_second));
}

fn duplicate_views_store(store: &InstanceViewsStore) -> InstanceViewsStore {
    let mut copy = InstanceViewsStore::default();
    for name in ["articles", "a", "b"] {
        if let Some(v) = store.get(name) {
            copy.save(name.to_string(), v);
        }
    }
    copy
}

#[test]
fn changed_ignores_slot_order() {
    let mut a = InstanceViewsStore::default();
    a.save("x".to_string(), SerializableCrudView::List);
    a.save("y".to_string(), SerializableCrudView::Create);
    let mut b = InstanceViewsStore::default();
    b.save("y".to_string(), SerializableCrudView::Create);
    b.save("x".to_string(), SerializableCrudView::List);
    assert!(!a.changed(&b));
}

#[test]
fn config_store_notifies_on_real_change_only() {
    let mut store: InstanceStore<CrudInstanceConfig> = InstanceStore::default();
    let config = CrudInstanceConfig {
        api_base_url: "https://api.example.test".to_string(),
        view: SerializableCrudView::List,
        items_per_page: 25,
        page: 2,
    };
    store.save("articles".to_string(), config.duplicate());

    let snapshot = InstanceStore::new(Ok(Some(duplicate_config_store(&store))));
    store.save("articles".to_string(), config.duplicate());
    assert!(!store.should_notify(&snapshot));

    let mut other = config.duplicate();
    other.page = 3;
    store.save("articles".to_string(), other);
    assert!(store.should_notify(&snapshot));

    let got = store.get("articles").unwrap();
    assert_eq!(got.page, 3);
    assert_eq!(got.items_per_page, 25);
}

fn duplicate_config_store(store: &InstanceStore<CrudInstanceConfig>) -> InstanceStore<
    CrudInstanceConfig,
> {
    let mut copy = InstanceStore::default();
    if let Some(v) = store.get("articles") {
        copy.save("articles".to_string(), v);
    }
    copy
}

#[test]
fn default_config_values() {
    let config = CrudInstanceConfig::default();
    assert_eq!(config.api_base_url, "".to_string());
    assert!(config.view.view_eq(&SerializableCrudView::List));
    assert_eq!(config.items_per_page, 10);
    assert_eq!(config.page, 1);
}
