//! Persisted, change-detecting stores.
//!
//! A store is a process-wide map from caller-chosen instance names to
//! a stored value, restored from durable storage at start and written
//! back after changes. Dependents are only notified when the store's
//! observable state really changed, so repeated identical writes cause
//! no notification storm. The slots are kept as a vector with unique
//! names; the observable state is the map the slots denote.

pub mod instance;
pub mod instance_views;

use vstd::prelude::*;

verus! {

/// A failure to restore from durable storage, with its description.
/// Restoring is best-effort: a failure degrades to an empty store.
#[derive(Debug)]
pub struct StorageError {
    pub message: String,
}

/// What a stored value must offer the store: structural equality and
/// duplication over its observable state.
pub trait StoreValue: View + Sized {
    /// Structural equality.
    fn value_eq(&self, other: &Self) -> (r: bool)
        ensures
            r == (self@ == other@),
    ;

    /// A copy observing equal.
    fn duplicate(&self) -> (r: Self)
        ensures
            r@ == self@,
    ;
}

/// One named slot of a store.
#[derive(Debug)]
pub struct StoreEntry<C> {
    pub name: String,
    pub value: C,
}

/// The map a sequence of slots denotes.
pub open spec fn store_map<C: View>(s: Seq<StoreEntry<C>>) -> Map<Seq<char>, C::V>
    decreases s.len(),
{
    if s.len() == 0 {
        Map::<Seq<char>, C::V>::empty()
    } else {
        store_map(s.drop_last()).insert(s.last().name@, s.last().value@)
    }
}

/// Whether the slots' names are pairwise distinct.
pub open spec fn unique_names<C>(s: Seq<StoreEntry<C>>) -> bool {
    forall|i: int, j: int|
        0 <= i < j < s.len() ==> (#[trigger] s[i]).name@ != (#[trigger] s[j]).name@
}

/// A name is in the map exactly when some slot carries it.
proof fn lemma_store_map_contains<C: View>(s: Seq<StoreEntry<C>>, n: Seq<char>)
    ensures
        store_map(s).contains_key(n) <==> exists|i: int|
            0 <= i < s.len() && (#[trigger] s[i]).name@ == n,
    decreases s.len(),
{
    if s.len() == 0 {
    } else {
        lemma_store_map_contains(s.drop_last(), n);
        if s.last().name@ == n {
            assert(s[s.len() - 1].name@ == n);
        } else {
            if exists|i: int| 0 <= i < s.len() && (#[trigger] s[i]).name@ == n {
                let i = choose|i: int| 0 <= i < s.len() && (#[trigger] s[i]).name@ == n;
                assert(i < s.len() - 1);
                assert(s.drop_last()[i] == s[i]);
            }
            if exists|i: int| 0 <= i < s.drop_last().len() && (#[trigger] s.drop_last()[i]).name@
                == n {
                let i = choose|i: int|
                    0 <= i < s.drop_last().len() && (#[trigger] s.drop_last()[i]).name@ == n;
                assert(s[i] == s.drop_last()[i]);
            }
        }
    }
}

/// With unique names, the map carries each slot's value at its name.
proof fn lemma_store_map_get<C: View>(s: Seq<StoreEntry<C>>, i: int)
    requires
        unique_names(s),
        0 <= i < s.len(),
    ensures
        store_map(s).contains_key(s[i].name@),
        store_map(s)[s[i].name@] == s[i].value@,
    decreases s.len(),
{
    if i == s.len() - 1 {
    } else {
        assert(s.drop_last()[i] == s[i]);
        lemma_store_map_get(s.drop_last(), i);
        assert(s[s.len() - 1].name@ != s[i].name@);
    }
}

/// Replacing a slot's value rewrites exactly its key in the map.
proof fn lemma_store_map_update<C: View>(s: Seq<StoreEntry<C>>, i: int, e: StoreEntry<C>)
    requires
        unique_names(s),
        0 <= i < s.len(),
        e.name@ == s[i].name@,
    ensures
        store_map(s.update(i, e)) == store_map(s).insert(e.name@, e.value@),
        unique_names(s.update(i, e)),
    decreases s.len(),
{
    let updated = s.update(i, e);
    assert forall|a: int, b: int| 0 <= a < b < updated.len() implies (#[trigger] updated[a]).name@
        != (#[trigger] updated[b]).name@ by {
        assert(updated[a] == if a == i {
            e
        } else {
            s[a]
        });
        assert(updated[b] == if b == i {
            e
        } else {
            s[b]
        });
    }
    if i == s.len() - 1 {
        assert(updated.drop_last() =~= s.drop_last());
        assert(updated.last() == e);
        assert(store_map(s.drop_last()).insert(s.last().name@, s.last().value@).insert(
            e.name@,
            e.value@,
        ) =~= store_map(s.drop_last()).insert(e.name@, e.value@));
    } else {
        assert(updated.drop_last() =~= s.drop_last().update(i, e));
        assert(s.drop_last()[i] == s[i]);
        lemma_store_map_update(s.drop_last(), i, e);
        assert(updated.last() == s.last());
        assert(s[s.len() - 1].name@ != s[i].name@);
        assert(store_map(s.drop_last()).insert(e.name@, e.value@).insert(
            s.last().name@,
            s.last().value@,
        ) =~= store_map(s.drop_last()).insert(s.last().name@, s.last().value@).insert(
            e.name@,
            e.value@,
        ));
    }
}

/// Appending a slot with a fresh name adds exactly its key.
proof fn lemma_store_map_push<C: View>(s: Seq<StoreEntry<C>>, e: StoreEntry<C>)
    requires
        unique_names(s),
        forall|j: int| 0 <= j < s.len() ==> (#[trigger] s[j]).name@ != e.name@,
    ensures
        store_map(s.push(e)) == store_map(s).insert(e.name@, e.value@),
        unique_names(s.push(e)),
{
    assert(s.push(e).drop_last() =~= s);
    assert(s.push(e).last() == e);
    assert forall|a: int, b: int| 0 <= a < b < s.push(e).len() implies (#[trigger] s.push(
        e,
    )[a]).name@ != (#[trigger] s.push(e)[b]).name@ by {
        if b < s.len() {
            assert(s.push(e)[a] == s[a] && s.push(e)[b] == s[b]);
        } else {
            assert(s.push(e)[a] == s[a] && s.push(e)[b] == e);
        }
    }
}

/// Looks a name up among the slots, handing out a copy of its value.
pub fn entries_get<C: StoreValue>(entries: &Vec<StoreEntry<C>>, name: &String) -> (r: Option<C>)
    requires
        unique_names(entries@),
    ensures
        r is Some <==> store_map(entries@).contains_key(name@),
        r matches Some(v) ==> store_map(entries@)[name@] == v@,
{
    let mut i: usize = 0;
    while i < entries.len()
        invariant
            i <= entries@.len(),
            unique_names(entries@),
            forall|j: int| 0 <= j < i ==> (#[trigger] entries@[j]).name@ != name@,
        decreases entries@.len() - i,
    {
        if entries[i].name == *name {
            proof {
                lemma_store_map_get(entries@, i as int);
            }
            return Some(entries[i].value.duplicate());
        }
        i = i + 1;
    }
    proof {
        lemma_store_map_contains(entries@, name@);
    }
    None
}

/// Writes a value under a name: the slot of that name is replaced, or
/// a fresh slot appended. The denoted map gains exactly that pair.
pub fn entries_save<C: StoreValue>(entries: &mut Vec<StoreEntry<C>>, name: String, value: C)
    requires
        unique_names(old(entries)@),
    ensures
        unique_names(final(entries)@),
        store_map(final(entries)@) == store_map(old(entries)@).insert(name@, value@),
{
    let mut i: usize = 0;
    while i < entries.len()
        invariant
            i <= entries@.len(),
            *entries == *old(entries),
            unique_names(entries@),
            forall|j: int| 0 <= j < i ==> (#[trigger] entries@[j]).name@ != name@,
        decreases entries@.len() - i,
    {
        if entries[i].name == name {
            proof {
                lemma_store_map_update(
                    entries@,
                    i as int,
                    StoreEntry { name: name, value: value },
                );
            }
            entries.set(i, StoreEntry { name, value });
            return ;
        }
        i = i + 1;
    }
    proof {
        lemma_store_map_push(entries@, StoreEntry { name: name, value: value });
    }
    entries.push(StoreEntry { name, value });
}

/// Slot sequences with equal names and observable values denote the
/// same map.
proof fn lemma_store_map_congruent<C: View>(a: Seq<StoreEntry<C>>, b: Seq<StoreEntry<C>>)
    requires
        a.len() == b.len(),
        forall|i: int|
            0 <= i < a.len() ==> (#[trigger] a[i]).name@ == b[i].name@ && a[i].value@
                == b[i].value@,
    ensures
        store_map(a) == store_map(b),
    decreases a.len(),
{
    if a.len() == 0 {
        assert(store_map(a) =~= store_map(b));
    } else {
        assert forall|i: int|
            0 <= i < a.drop_last().len() implies (#[trigger] a.drop_last()[i]).name@
            == b.drop_last()[i].name@ && a.drop_last()[i].value@ == b.drop_last()[i].value@ by {
            assert(a.drop_last()[i] == a[i] && b.drop_last()[i] == b[i]);
        }
        lemma_store_map_congruent(a.drop_last(), b.drop_last());
        assert(a[a.len() - 1].name@ == b[b.len() - 1].name@ && a[a.len() - 1].value@ == b[b.len()
            - 1].value@);
    }
}

/// A copy of the slots, observing the same map, for handing the
/// store's whole contents out.
pub fn entries_snapshot<C: StoreValue>(entries: &Vec<StoreEntry<C>>) -> (r: Vec<StoreEntry<C>>)
    requires
        unique_names(entries@),
    ensures
        unique_names(r@),
        store_map(r@) == store_map(entries@),
{
    let mut out: Vec<StoreEntry<C>> = Vec::new();
    let mut i: usize = 0;
    while i < entries.len()
        invariant
            i <= entries@.len(),
            out@.len() == i,
            forall|j: int|
                0 <= j < i ==> (#[trigger] out@[j]).name@ == entries@[j].name@ && out@[j].value@
                    == entries@[j].value@,
        decreases entries@.len() - i,
    {
        let entry = StoreEntry {
            name: entries[i].name.clone(),
            value: entries[i].value.duplicate(),
        };
        out.push(entry);
        i = i + 1;
    }
    proof {
        assert forall|a: int, b: int| 0 <= a < b < out@.len() implies (#[trigger] out@[a]).name@
            != (#[trigger] out@[b]).name@ by {
            assert(out@[a].name@ == entries@[a].name@ && out@[b].name@ == entries@[b].name@);
        }
        lemma_store_map_congruent(out@, entries@);
    }
    out
}

/// Whether every pair of `a`'s map also stands in `b`'s.
fn entries_contained<C: StoreValue>(a: &Vec<StoreEntry<C>>, b: &Vec<StoreEntry<C>>) -> (r: bool)
    requires
        unique_names(a@),
        unique_names(b@),
    ensures
        r == (forall|k: Seq<char>|
            #[trigger] store_map(a@).contains_key(k) ==> store_map(b@).contains_key(k) && store_map(
                b@,
            )[k] == store_map(a@)[k]),
{
    let mut i: usize = 0;
    while i < a.len()
        invariant
            i <= a@.len(),
            unique_names(a@),
            unique_names(b@),
            forall|j: int|
                0 <= j < i ==> store_map(b@).contains_key((#[trigger] a@[j]).name@) && store_map(
                    b@,
                )[a@[j].name@] == a@[j].value@,
        decreases a@.len() - i,
    {
        proof {
            lemma_store_map_get(a@, i as int);
        }
        match entries_get(b, &a[i].name) {
            Some(v) => {
                if !v.value_eq(&a[i].value) {
                    return false;
                }
            },
            None => {
                return false;
            },
        }
        i = i + 1;
    }
    proof {
        assert forall|k: Seq<char>| #[trigger] store_map(a@).contains_key(k) implies store_map(
            b@,
        ).contains_key(k) && store_map(b@)[k] == store_map(a@)[k] by {
            lemma_store_map_contains(a@, k);
            let j = choose|j: int| 0 <= j < a@.len() && (#[trigger] a@[j]).name@ == k;
            lemma_store_map_get(a@, j);
        }
    }
    true
}

/// Whether two stores denote the same map.
pub fn entries_equal<C: StoreValue>(a: &Vec<StoreEntry<C>>, b: &Vec<StoreEntry<C>>) -> (r: bool)
    requires
        unique_names(a@),
        unique_names(b@),
    ensures
        r == (store_map(a@) == store_map(b@)),
{
    let forward = entries_contained(a, b);
    let backward = entries_contained(b, a);
    if forward && backward {
        proof {
            assert forall|k: Seq<char>| #[trigger] store_map(a@).contains_key(k) implies store_map(
                b@,
            ).contains_key(k) by {
            }
            assert(store_map(a@) =~= store_map(b@));
        }
        true
    } else {
        false
    }
}

} // verus!
