//! The declarative description of a form.
//!
//! An instance's configuration declares which fields its forms show
//! and how they are grouped: elements are fields, separators, or
//! enclosures that nest groups and tabs. These are plain data that the
//! rendering layer walks; the runtime only carries them.

use crate::data::CrudDataTrait;
use vstd::prelude::*;

verus! {

/// How a rendered field behaves.
#[derive(Clone, Copy, PartialEq, Eq, Structural, Debug)]
pub enum FieldMode {
    Display,
    Readable,
    Editable,
}

/// How a timestamp column is displayed.
#[derive(Clone, Copy, PartialEq, Eq, Structural, Debug)]
pub enum DateTimeDisplay {
    IsoUtc,
    LocalizedLocal,
}

/// A rendered label.
#[derive(Debug)]
pub struct Label {
    pub name: String,
}

impl Label {
    /// Labels the form element `name`.
    pub fn new(name: String) -> (r: Label)
        ensures
            r.name@ == name@,
    {
        Label { name }
    }
}

/// How a table header renders a column.
#[derive(Debug)]
pub struct HeaderOptions {
    pub display_name: String,
    pub min_width: bool,
    pub ordering_allowed: bool,
    pub date_time_display: DateTimeDisplay,
}

impl Default for HeaderOptions {
    /// An unnamed, orderable column of regular width, showing local
    /// time.
    fn default() -> (r: HeaderOptions)
        ensures
            r.display_name@ == Seq::<char>::empty(),
            r.min_width == false,
            r.ordering_allowed == true,
            r.date_time_display == DateTimeDisplay::LocalizedLocal,
    {
        HeaderOptions {
            display_name: String::new(),
            min_width: false,
            ordering_allowed: true,
            date_time_display: DateTimeDisplay::LocalizedLocal,
        }
    }
}

/// How a form field renders.
#[derive(Debug)]
pub struct FieldOptions {
    pub disabled: bool,
    pub label: Option<Label>,
    pub date_time_display: DateTimeDisplay,
}

impl Default for FieldOptions {
    /// An enabled, unlabeled field showing local time.
    fn default() -> (r: FieldOptions)
        ensures
            r.disabled == false,
            r.label is None,
            r.date_time_display == DateTimeDisplay::LocalizedLocal,
    {
        FieldOptions {
            disabled: false,
            label: None,
            date_time_display: DateTimeDisplay::LocalizedLocal,
        }
    }
}

/// Whether a new ordering replaces or extends the current one.
#[derive(Debug)]
pub struct OrderByUpdateOptions {
    pub append: bool,
}

impl Default for OrderByUpdateOptions {
    /// A new ordering replaces the current one.
    fn default() -> (r: OrderByUpdateOptions)
        ensures
            r.append == false,
    {
        OrderByUpdateOptions { append: false }
    }
}

/// How many columns a group lays its children out in.
#[derive(Clone, Copy, PartialEq, Eq, Structural, Debug)]
pub enum Layout {
    Columns1,
    Columns2,
    Columns3,
    Columns4,
}

impl Default for Layout {
    /// Two columns.
    fn default() -> (r: Layout)
        ensures
            r == Layout::Columns2,
    {
        Layout::Columns2
    }
}

/// One element of a form: a nested enclosure, a field with its
/// options, or a separator.
pub enum Elem<T: CrudDataTrait> {
    Enclosing(Enclosing<T>),
    Field((T::Field, FieldOptions)),
    Separator,
}

/// A labeled tab holding a group.
pub struct Tab<T: CrudDataTrait> {
    pub label: Label,
    pub group: Group<T>,
}

/// What encloses a nested group: nothing, tabs, or a card.
pub enum Enclosing<T: CrudDataTrait> {
    Plain(Group<T>),
    Tabs(Vec<Tab<T>>),
    Card(Group<T>),
}

/// A laid-out group of elements.
pub struct Group<T: CrudDataTrait> {
    pub layout: Layout,
    pub children: Vec<Elem<T>>,
}

impl<T: CrudDataTrait> Default for Group<T> {
    /// An empty group with the default layout.
    fn default() -> (r: Group<T>)
        ensures
            r.layout == Layout::Columns2,
            r.children@.len() == 0,
    {
        Group { layout: Layout::Columns2, children: Vec::new() }
    }
}

} // verus!
