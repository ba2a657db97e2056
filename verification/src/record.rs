//! The dynamic record entity.
//!
//! A `ValueRecord` is an entity whose fields are named `Value`s held
//! in declaration order. It implements every entity-model contract,
//! so the generic runtime can be exercised without code generation:
//! its accessors resolve names at run time, and a write must keep the
//! field's declared kind.

use crate::data::{
    CrudDataTrait, CrudFieldNameTrait, CrudFieldValueTrait, CrudIdTrait, CrudMainTrait,
    CrudResourceTrait, EmptyActionPayload, UnknownFieldError,
};
use crate::ids::{IdField, IdFieldView, IdValue, IdValueView, SerializableId};
use crate::value::{view_kind, Value, ValueError, ValueView};
use vstd::prelude::*;
use vstd::string::StringExecFns;

verus! {

/// The observable state of one record entry.
pub struct RecordEntryView {
    pub name: Seq<char>,
    pub value: ValueView,
}

/// One named field of a record.
#[derive(Debug)]
pub struct RecordEntry {
    pub name: String,
    pub value: Value,
}

impl View for RecordEntry {
    type V = RecordEntryView;

    open spec fn view(&self) -> RecordEntryView {
        RecordEntryView { name: self.name@, value: self.value@ }
    }
}

/// The views of a sequence of entries.
pub open spec fn record_entry_views(s: Seq<RecordEntry>) -> Seq<RecordEntryView> {
    s.map_values(|e: RecordEntry| e@)
}

/// An entity made of named values, in declaration order.
#[derive(Debug)]
pub struct ValueRecord {
    pub entries: Vec<RecordEntry>,
}

impl View for ValueRecord {
    type V = Seq<RecordEntryView>;

    open spec fn view(&self) -> Seq<RecordEntryView> {
        record_entry_views(self.entries@)
    }
}

/// The index of the first entry named `name`, or a negative number
/// when there is none.
pub open spec fn entry_index(s: Seq<RecordEntryView>, name: Seq<char>) -> int
    decreases s.len(),
{
    if s.len() == 0 {
        -1
    } else if s[0].name == name {
        0
    } else {
        let rest = entry_index(s.subrange(1, s.len() as int), name);
        if rest < 0 {
            -1
        } else {
            rest + 1
        }
    }
}

/// What `entry_index` finds: a negative answer means no entry has the
/// name, and a found index is the first entry that does.
pub proof fn lemma_entry_index_spec(s: Seq<RecordEntryView>, name: Seq<char>)
    ensures
        entry_index(s, name) < 0 ==> (forall|j: int|
            0 <= j < s.len() ==> (#[trigger] s[j]).name != name),
        entry_index(s, name) >= 0 ==> {
            &&& entry_index(s, name) < s.len()
            &&& s[entry_index(s, name)].name == name
            &&& forall|j: int| 0 <= j < entry_index(s, name) ==> (#[trigger] s[j]).name != name
        },
    decreases s.len(),
{
    if s.len() == 0 {
    } else if s[0].name == name {
    } else {
        let rest = s.subrange(1, s.len() as int);
        lemma_entry_index_spec(rest, name);
        assert forall|j: int| 1 <= j < s.len() implies s[j] == rest[j - 1] by {
        }
    }
}

/// An index that names `name` first is what `entry_index` returns.
pub proof fn lemma_entry_index_witness(s: Seq<RecordEntryView>, name: Seq<char>, i: int)
    requires
        0 <= i < s.len(),
        s[i].name == name,
        forall|j: int| 0 <= j < i ==> (#[trigger] s[j]).name != name,
    ensures
        entry_index(s, name) == i,
    decreases s.len(),
{
    if i == 0 {
    } else {
        let rest = s.subrange(1, s.len() as int);
        assert(s[0].name != name);
        assert forall|j: int| 0 <= j < i - 1 implies (#[trigger] rest[j]).name != name by {
            assert(rest[j] == s[j + 1]);
        }
        assert(rest[i - 1] == s[i]);
        lemma_entry_index_witness(rest, name, i - 1);
    }
}

/// Replacing the found entry with one of the same name keeps the
/// found index.
pub proof fn lemma_entry_index_update(
    s: Seq<RecordEntryView>,
    name: Seq<char>,
    e: RecordEntryView,
)
    requires
        entry_index(s, name) >= 0,
        e.name == name,
    ensures
        entry_index(s.update(entry_index(s, name), e), name) == entry_index(s, name),
{
    let i = entry_index(s, name);
    lemma_entry_index_spec(s, name);
    let updated = s.update(i, e);
    assert forall|j: int| 0 <= j < i implies (#[trigger] updated[j]).name != name by {
        assert(updated[j] == s[j]);
    }
    lemma_entry_index_witness(updated, name, i);
}

/// A field accessor of a record: it resolves its stable name at run
/// time, reads the entry of that name, and writes it only when the
/// written value keeps the entry's declared kind.
#[derive(Debug)]
pub struct RecordField {
    pub name: String,
}

impl CrudFieldNameTrait for RecordField {
    open spec fn spec_name(&self) -> Seq<char> {
        self.name@
    }

    fn get_name(&self) -> (r: String) {
        self.name.clone()
    }
}

impl CrudFieldValueTrait<ValueRecord> for RecordField {
    open spec fn declared(&self, entity: Seq<RecordEntryView>) -> bool {
        entry_index(entity, self.name@) >= 0
    }

    open spec fn spec_value(&self, entity: Seq<RecordEntryView>) -> ValueView {
        entity[entry_index(entity, self.name@)].value
    }

    open spec fn accepts(&self, entity: Seq<RecordEntryView>, value: ValueView) -> bool {
        &&& entry_index(entity, self.name@) >= 0
        &&& view_kind(value) == view_kind(self.spec_value(entity))
    }

    open spec fn spec_update(&self, entity: Seq<RecordEntryView>, value: ValueView) -> Seq<
        RecordEntryView,
    > {
        entity.update(entry_index(entity, self.name@), RecordEntryView { name: self.name@, value })
    }

    fn get_value(&self, entity: &ValueRecord) -> (r: Value) {
        let mut i: usize = 0;
        proof {
            lemma_entry_index_spec(entity@, self.name@);
        }
        while i < entity.entries.len()
            invariant
                i <= entity.entries@.len(),
                entity@ == record_entry_views(entity.entries@),
                forall|j: int| 0 <= j < i ==> (#[trigger] entity@[j]).name != self.name@,
            decreases entity.entries@.len() - i,
        {
            if entity.entries[i].name == self.name {
                proof {
                    assert(entity@[i as int] == entity.entries@[i as int]@);
                    lemma_entry_index_witness(entity@, self.name@, i as int);
                }
                return entity.entries[i].value.duplicate();
            }
            proof {
                assert(entity@[i as int] == entity.entries@[i as int]@);
            }
            i = i + 1;
        }
        proof {
            lemma_entry_index_witness_none(entity@, self.name@);
            assert(false);
        }
        vstd::pervasive::unreached()
    }

    fn set_value(&self, entity: &mut ValueRecord, value: Value) -> (r: Result<(), ValueError>) {
        let mut i: usize = 0;
        proof {
            lemma_entry_index_spec(old(entity)@, self.name@);
        }
        while i < entity.entries.len()
            invariant
                i <= entity.entries@.len(),
                *entity == *old(entity),
                forall|j: int| 0 <= j < i ==> (#[trigger] entity@[j]).name != self.name@,
            decreases entity.entries@.len() - i,
        {
            if entity.entries[i].name == self.name {
                proof {
                    assert(entity@[i as int] == entity.entries@[i as int]@);
                    lemma_entry_index_witness(entity@, self.name@, i as int);
                }
                if entity.entries[i].value.kind() == value.kind() {
                    let name = entity.entries[i].name.clone();
                    let ghost before = entity@;
                    entity.entries.set(i, RecordEntry { name, value });
                    proof {
                        assert forall|j: int|
                            0 <= j < entity@.len() implies entity@[j] == before.update(
                            i as int,
                            RecordEntryView { name: self.name@, value: value@ },
                        )[j] by {
                            assert(entity@[j] == entity.entries@[j]@);
                        }
                        assert(entity@ =~= before.update(
                            i as int,
                            RecordEntryView { name: self.name@, value: value@ },
                        ));
                    }
                    return Ok(());
                } else {
                    return Err(ValueError::UnexpectedVariant { found: value.kind() });
                }
            }
            proof {
                assert(entity@[i as int] == entity.entries@[i as int]@);
            }
            i = i + 1;
        }
        proof {
            lemma_entry_index_witness_none(entity@, self.name@);
        }
        Err(ValueError::UnexpectedVariant { found: value.kind() })
    }

    proof fn lemma_update_value(&self, entity: Seq<RecordEntryView>, value: ValueView) {
        let i = entry_index(entity, self.name@);
        lemma_entry_index_spec(entity, self.name@);
        let e = RecordEntryView { name: self.name@, value };
        lemma_entry_index_update(entity, self.name@, e);
        if value == self.spec_value(entity) {
            assert(entity[i] == e);
            assert(entity.update(i, e) =~= entity);
        }
    }
}

/// When no entry has the name, `entry_index` says so.
proof fn lemma_entry_index_witness_none(s: Seq<RecordEntryView>, name: Seq<char>)
    requires
        forall|j: int| 0 <= j < s.len() ==> (#[trigger] s[j]).name != name,
    ensures
        entry_index(s, name) < 0,
{
    lemma_entry_index_spec(s, name);
}

/// The identifier fields a record exposes: its `id` entry, when that
/// entry holds an unsigned number; nothing otherwise.
pub open spec fn record_id_views(s: Seq<RecordEntryView>) -> Seq<IdFieldView> {
    let i = entry_index(s, "id"@);
    if i >= 0 {
        match s[i].value {
            ValueView::U32(n) => seq![
                IdFieldView { name: "id"@, value: IdValueView::U32(n) },
            ],
            _ => Seq::<IdFieldView>::empty(),
        }
    } else {
        Seq::<IdFieldView>::empty()
    }
}

impl CrudDataTrait for ValueRecord {
    type Field = RecordField;

    open spec fn spec_id_field_name() -> Seq<char> {
        "id"@
    }

    open spec fn spec_known_field(name: Seq<char>) -> bool {
        true
    }

    fn get_id_field_name() -> (r: String) {
        String::from_str("id")
    }

    fn get_field(field_name: &str) -> (r: Result<RecordField, UnknownFieldError>) {
        Ok(RecordField { name: String::from_str(field_name) })
    }

    fn data_eq(&self, other: &Self) -> (r: bool) {
        if self.entries.len() != other.entries.len() {
            proof {
                assert(self@.len() != other@.len());
            }
            return false;
        }
        let mut i: usize = 0;
        while i < self.entries.len()
            invariant
                i <= self.entries@.len(),
                self.entries@.len() == other.entries@.len(),
                forall|j: int| 0 <= j < i ==> self.entries@[j]@ == other.entries@[j]@,
            decreases self.entries@.len() - i,
        {
            let same_name = self.entries[i].name == other.entries[i].name;
            let same_value = self.entries[i].value.value_eq(&other.entries[i].value);
            if !(same_name && same_value) {
                proof {
                    assert(self@[i as int] == self.entries@[i as int]@);
                    assert(other@[i as int] == other.entries@[i as int]@);
                }
                return false;
            }
            i = i + 1;
        }
        proof {
            assert forall|j: int| 0 <= j < self@.len() implies self@[j] == other@[j] by {
                assert(self.entries@[j]@ == other.entries@[j]@);
            }
            assert(self@ =~= other@);
        }
        true
    }

    fn clone_data(&self) -> (r: Self) {
        let mut entries: Vec<RecordEntry> = Vec::new();
        let mut i: usize = 0;
        while i < self.entries.len()
            invariant
                i <= self.entries@.len(),
                entries@.len() == i,
                forall|j: int| 0 <= j < i ==> (#[trigger] entries@[j])@ == self.entries@[j]@,
            decreases self.entries@.len() - i,
        {
            let entry = RecordEntry {
                name: self.entries[i].name.clone(),
                value: self.entries[i].value.duplicate(),
            };
            entries.push(entry);
            i = i + 1;
        }
        let r = ValueRecord { entries };
        proof {
            assert forall|j: int| 0 <= j < r@.len() implies r@[j] == self@[j] by {
                assert(r.entries@[j]@ == self.entries@[j]@);
            }
            assert(r@ =~= self@);
        }
        r
    }

    open spec fn spec_default() -> Seq<RecordEntryView> {
        Seq::<RecordEntryView>::empty()
    }

    fn default_data() -> (r: Self) {
        let r = ValueRecord { entries: Vec::new() };
        proof {
            assert(r@ =~= Seq::<RecordEntryView>::empty());
        }
        r
    }
}

impl CrudIdTrait for ValueRecord {
    open spec fn spec_id(&self) -> Seq<IdFieldView> {
        record_id_views(self@)
    }

    fn get_id(&self) -> (r: SerializableId) {
        let id_name = String::from_str("id");
        let mut i: usize = 0;
        proof {
            lemma_entry_index_spec(self@, "id"@);
        }
        while i < self.entries.len()
            invariant
                i <= self.entries@.len(),
                id_name@ == "id"@,
                self@ == record_entry_views(self.entries@),
                forall|j: int| 0 <= j < i ==> (#[trigger] self@[j]).name != "id"@,
            decreases self.entries@.len() - i,
        {
            if self.entries[i].name == id_name {
                proof {
                    assert(self@[i as int] == self.entries@[i as int]@);
                    lemma_entry_index_witness(self@, "id"@, i as int);
                }
                match &self.entries[i].value {
                    Value::U32(n) => {
                        let mut fields: Vec<IdField> = Vec::new();
                        fields.push(IdField { name: id_name, value: IdValue::U32(*n) });
                        let r = SerializableId { fields };
                        proof {
                            assert(r@ =~= record_id_views(self@));
                        }
                        return r;
                    },
                    _ => {
                        let r = SerializableId { fields: Vec::new() };
                        proof {
                            assert(r@ =~= record_id_views(self@));
                        }
                        return r;
                    },
                }
            }
            proof {
                assert(self@[i as int] == self.entries@[i as int]@);
            }
            i = i + 1;
        }
        proof {
            lemma_entry_index_witness_none(self@, "id"@);
        }
        let r = SerializableId { fields: Vec::new() };
        proof {
            assert(r@ =~= record_id_views(self@));
        }
        r
    }
}

/// The record resource: every shape of it is a record, and a read row
/// is already the editable row.
#[derive(Debug)]
pub struct RecordResource {

}

impl CrudResourceTrait for RecordResource {
    open spec fn spec_resource_name() -> Seq<char> {
        "record"@
    }

    fn get_resource_name() -> (r: String) {
        String::from_str("record")
    }
}

impl CrudMainTrait for RecordResource {
    type CreateModel = ValueRecord;

    type ReadModel = ValueRecord;

    type UpdateModel = ValueRecord;

    type ActionPayload = EmptyActionPayload;

    open spec fn spec_read_into_update(read: ValueRecord) -> Seq<RecordEntryView> {
        read@
    }

    fn read_into_update(read: ValueRecord) -> (r: ValueRecord) {
        read
    }
}

} // verus!
