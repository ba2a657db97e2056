//! The store of each instance's current view.
//!
//! Keyed by instance name, it remembers which view a named CRUD region
//! is showing, so that a reload comes back to the same place. It is
//! restored from durable storage at start — a failed restore degrades
//! to an empty store — and dependents are only notified when the
//! observable state changed.

use crate::stores::{
    entries_equal, entries_get, entries_save, entries_snapshot, store_map, unique_names, StorageError, StoreEntry,
    StoreValue,
};
use crate::views::{SerializableCrudView, SerializableCrudViewV};
use vstd::prelude::*;
use vstd::string::StringExecFns;

verus! {

impl StoreValue for SerializableCrudView {
    fn value_eq(&self, other: &Self) -> (r: bool) {
        self.view_eq(other)
    }

    fn duplicate(&self) -> (r: Self) {
        self.duplicate()
    }
}

/// The per-instance current view, keyed by instance name.
#[derive(Debug)]
pub struct InstanceViewsStore {
    instances: Vec<StoreEntry<SerializableCrudView>>,
}

impl View for InstanceViewsStore {
    type V = Map<Seq<char>, SerializableCrudViewV>;

    closed spec fn view(&self) -> Map<Seq<char>, SerializableCrudViewV> {
        store_map(self.instances@)
    }
}

impl InstanceViewsStore {
    /// The store's representation invariant: one slot per name.
    pub closed spec fn wf(&self) -> bool {
        unique_names(self.instances@)
    }

    /// An empty store.
    pub fn empty() -> (r: InstanceViewsStore)
        ensures
            r.wf(),
            r@ == Map::<Seq<char>, SerializableCrudViewV>::empty(),
    {
        InstanceViewsStore { instances: Vec::new() }
    }

    /// Builds the store from what durable storage yielded: the
    /// restored store when there is one; an empty store when nothing
    /// was stored or the restore failed — a storage failure never
    /// propagates.
    pub fn new(restored: Result<Option<InstanceViewsStore>, StorageError>) -> (r:
        InstanceViewsStore)
        requires
            restored matches Ok(Some(s)) ==> s.wf(),
        ensures
            r.wf(),
            match restored {
                Ok(Some(s)) => r@ == s@,
                Ok(None) => r@ == Map::<Seq<char>, SerializableCrudViewV>::empty(),
                Err(_) => r@ == Map::<Seq<char>, SerializableCrudViewV>::empty(),
            },
    {
        match restored {
            Ok(Some(s)) => s,
            Ok(None) => InstanceViewsStore::empty(),
            Err(_) => InstanceViewsStore::empty(),
        }
    }

    /// Pure lookup of an instance's current view.
    pub fn get(&self, instance_name: &str) -> (r: Option<SerializableCrudView>)
        requires
            self.wf(),
        ensures
            r is Some <==> self@.contains_key(instance_name@),
            r matches Some(v) ==> self@[instance_name@] == v@,
    {
        let name = String::from_str(instance_name);
        entries_get(&self.instances, &name)
    }

    /// Upserts an instance's current view. Always succeeds; the
    /// observable state becomes the old map with exactly this pair
    /// written.
    pub fn save(&mut self, instance_name: String, crud_view: SerializableCrudView)
        requires
            old(self).wf(),
        ensures
            final(self).wf(),
            final(self)@ == old(self)@.insert(instance_name@, crud_view@),
    {
        entries_save(&mut self.instances, instance_name, crud_view);
    }

    /// Hands the whole contents out as named slots, for persisting.
    pub fn snapshot_entries(&self) -> (r: Vec<StoreEntry<SerializableCrudView>>)
        requires
            self.wf(),
        ensures
            store_map(r@) == self@,
    {
        entries_snapshot(&self.instances)
    }

    /// Whether dependents must be notified: exactly when the
    /// observable state differs from the earlier snapshot.
    pub fn changed(&self, other: &InstanceViewsStore) -> (r: bool)
        requires
            self.wf(),
            other.wf(),
        ensures
            r == (self@ != other@),
    {
        !entries_equal(&self.instances, &other.instances)
    }
}

impl Default for InstanceViewsStore {
    /// The empty store.
    fn default() -> (r: InstanceViewsStore)
        ensures
            r.wf(),
            r@ == Map::<Seq<char>, SerializableCrudViewV>::empty(),
    {
        InstanceViewsStore::empty()
    }
}

/// Idempotent store writes: writing the same view under the same name
/// a second time leaves the observable state exactly as after the
/// first write, so the change gate fires at most once for repeated
/// identical writes.
pub proof fn lemma_idempotent_save(
    m: Map<Seq<char>, SerializableCrudViewV>,
    name: Seq<char>,
    crud_view: SerializableCrudViewV,
)
    ensures
        m.insert(name, crud_view).insert(name, crud_view) == m.insert(name, crud_view),
{
    assert(m.insert(name, crud_view).insert(name, crud_view) =~= m.insert(name, crud_view));
}

} // verus!
