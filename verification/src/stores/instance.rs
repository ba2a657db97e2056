//! The store of each instance's configuration.
//!
//! Keyed by instance name like the view store, it remembers a named
//! CRUD region's configuration across reloads. The store is generic in
//! the configuration it keeps; `CrudInstanceConfig` is the
//! configuration the runtime itself uses.

use crate::stores::{
    entries_equal, entries_get, entries_save, entries_snapshot, store_map, unique_names, StorageError, StoreEntry,
    StoreValue,
};
use crate::views::{SerializableCrudView, SerializableCrudViewV};
use vstd::prelude::*;
use vstd::string::StringExecFns;

verus! {

/// The observable state of an instance configuration.
pub struct CrudInstanceConfigV {
    pub api_base_url: Seq<char>,
    pub view: SerializableCrudViewV,
    pub items_per_page: u64,
    pub page: u64,
}

/// What a named CRUD region remembers about itself: where its backend
/// lives, which view it shows, and how its list is paged.
#[derive(Debug)]
pub struct CrudInstanceConfig {
    pub api_base_url: String,
    pub view: SerializableCrudView,
    pub items_per_page: u64,
    pub page: u64,
}

impl View for CrudInstanceConfig {
    type V = CrudInstanceConfigV;

    open spec fn view(&self) -> CrudInstanceConfigV {
        CrudInstanceConfigV {
            api_base_url: self.api_base_url@,
            view: self.view@,
            items_per_page: self.items_per_page,
            page: self.page,
        }
    }
}

impl StoreValue for CrudInstanceConfig {
    fn value_eq(&self, other: &Self) -> (r: bool) {
        self.api_base_url == other.api_base_url && self.view.view_eq(&other.view)
            && self.items_per_page == other.items_per_page && self.page == other.page
    }

    fn duplicate(&self) -> (r: Self) {
        CrudInstanceConfig {
            api_base_url: self.api_base_url.clone(),
            view: self.view.duplicate(),
            items_per_page: self.items_per_page,
            page: self.page,
        }
    }
}

impl Default for CrudInstanceConfig {
    /// A fresh instance: no backend yet, showing the list, first page,
    /// ten items a page.
    fn default() -> (r: CrudInstanceConfig)
        ensures
            r@.api_base_url == Seq::<char>::empty(),
            r@.view == SerializableCrudViewV::List,
            r@.items_per_page == 10,
            r@.page == 1,
    {
        CrudInstanceConfig {
            api_base_url: String::new(),
            view: SerializableCrudView::List,
            items_per_page: 10,
            page: 1,
        }
    }
}

/// The per-instance configuration, keyed by instance name.
#[derive(Debug)]
pub struct InstanceStore<C: StoreValue> {
    instances: Vec<StoreEntry<C>>,
}

impl<C: StoreValue> View for InstanceStore<C> {
    type V = Map<Seq<char>, C::V>;

    closed spec fn view(&self) -> Map<Seq<char>, C::V> {
        store_map(self.instances@)
    }
}

impl<C: StoreValue> InstanceStore<C> {
    /// The store's representation invariant: one slot per name.
    pub closed spec fn wf(&self) -> bool {
        unique_names(self.instances@)
    }

    /// An empty store.
    pub fn empty() -> (r: InstanceStore<C>)
        ensures
            r.wf(),
            r@ == Map::<Seq<char>, C::V>::empty(),
    {
        InstanceStore { instances: Vec::new() }
    }

    /// Builds the store from what durable storage yielded, degrading
    /// to an empty store when nothing was stored or the restore
    /// failed.
    pub fn new(restored: Result<Option<InstanceStore<C>>, StorageError>) -> (r: InstanceStore<C>)
        requires
            restored matches Ok(Some(s)) ==> s.wf(),
        ensures
            r.wf(),
            match restored {
                Ok(Some(s)) => r@ == s@,
                Ok(None) => r@ == Map::<Seq<char>, C::V>::empty(),
                Err(_) => r@ == Map::<Seq<char>, C::V>::empty(),
            },
    {
        match restored {
            Ok(Some(s)) => s,
            Ok(None) => InstanceStore::empty(),
            Err(_) => InstanceStore::empty(),
        }
    }

    /// Pure lookup of an instance's configuration.
    pub fn get(&self, instance_name: &str) -> (r: Option<C>)
        requires
            self.wf(),
        ensures
            r is Some <==> self@.contains_key(instance_name@),
            r matches Some(v) ==> self@[instance_name@] == v@,
    {
        let name = String::from_str(instance_name);
        entries_get(&self.instances, &name)
    }

    /// Upserts an instance's configuration.
    pub fn save(&mut self, instance_name: String, instance_config: C)
        requires
            old(self).wf(),
        ensures
            final(self).wf(),
            final(self)@ == old(self)@.insert(instance_name@, instance_config@),
    {
        entries_save(&mut self.instances, instance_name, instance_config);
    }

    /// Hands the whole contents out as named slots, for persisting.
    pub fn snapshot_entries(&self) -> (r: Vec<StoreEntry<C>>)
        requires
            self.wf(),
        ensures
            store_map(r@) == self@,
    {
        entries_snapshot(&self.instances)
    }

    /// Whether dependents must be notified: exactly when the
    /// observable state differs from the earlier snapshot.
    pub fn should_notify(&self, other: &InstanceStore<C>) -> (r: bool)
        requires
            self.wf(),
            other.wf(),
        ensures
            r == (self@ != other@),
    {
        !entries_equal(&self.instances, &other.instances)
    }
}

impl<C: StoreValue> Default for InstanceStore<C> {
    /// The empty store.
    fn default() -> (r: InstanceStore<C>)
        ensures
            r.wf(),
            r@ == Map::<Seq<char>, C::V>::empty(),
    {
        InstanceStore::empty()
    }
}

} // verus!
