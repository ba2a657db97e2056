//! Selectable option values.
//!
//! Select and multiselect fields hold option values chosen from an
//! open set of application-defined option types. An option is kept
//! here in erased form: a tag identifying its concrete type, its
//! erased payload bytes, and its rendering. Narrowing back to a
//! concrete type checks the tag and is a typed failure on mismatch.

use vstd::prelude::*;

verus! {

/// The observable state of a selectable option.
pub struct SelectableView {
    pub type_tag: u64,
    pub data: Seq<u8>,
    pub display: Seq<char>,
}

/// The views of a sequence of options.
pub open spec fn selectable_views(s: Seq<Selectable>) -> Seq<SelectableView> {
    s.map_values(|x: Selectable| x@)
}

/// An erased selectable option: a type tag for downcasts, the erased
/// payload, and the text the option renders as.
#[derive(Debug)]
pub struct Selectable {
    pub type_tag: u64,
    pub data: Vec<u8>,
    pub display: String,
}

impl View for Selectable {
    type V = SelectableView;

    open spec fn view(&self) -> SelectableView {
        SelectableView { type_tag: self.type_tag, data: self.data@, display: self.display@ }
    }
}

impl Selectable {
    /// Structural equality of two options.
    pub fn selectable_eq(&self, other: &Selectable) -> (r: bool)
        ensures
            r == (self@ == other@),
    {
        if self.type_tag != other.type_tag {
            return false;
        }
        if !(self.display == other.display) {
            return false;
        }
        if self.data.len() != other.data.len() {
            return false;
        }
        let mut i: usize = 0;
        while i < self.data.len()
            invariant
                i <= self.data@.len(),
                self.data@.len() == other.data@.len(),
                self@.type_tag == other@.type_tag,
                self@.display == other@.display,
                self@.data == self.data@,
                other@.data == other.data@,
                forall|j: int| 0 <= j < i ==> self.data@[j] == other.data@[j],
            decreases self.data@.len() - i,
        {
            if self.data[i] != other.data[i] {
                assert(self.data@[i as int] != other.data@[i as int]);
                return false;
            }
            i = i + 1;
        }
        proof {
            assert(self.data@ =~= other.data@);
        }
        true
    }

    /// A copy observing equal.
    pub fn duplicate(&self) -> (r: Selectable)
        ensures
            r@ == self@,
    {
        let mut data: Vec<u8> = Vec::new();
        let mut i: usize = 0;
        while i < self.data.len()
            invariant
                i <= self.data@.len(),
                data@ == self.data@.take(i as int),
            decreases self.data@.len() - i,
        {
            data.push(self.data[i]);
            proof {
                assert(data@ =~= self.data@.take(i + 1));
            }
            i = i + 1;
        }
        proof {
            assert(data@ =~= self.data@);
        }
        Selectable { type_tag: self.type_tag, data, display: self.display.clone() }
    }

    /// The option's rendering.
    pub fn display_string(&self) -> (r: String)
        ensures
            r@ == self@.display,
    {
        self.display.clone()
    }
}

/// Structural equality of two option sequences.
pub fn selectables_eq(a: &Vec<Selectable>, b: &Vec<Selectable>) -> (r: bool)
    ensures
        r == (selectable_views(a@) == selectable_views(b@)),
{
    if a.len() != b.len() {
        proof {
            assert(selectable_views(a@).len() != selectable_views(b@).len());
        }
        return false;
    }
    let mut i: usize = 0;
    while i < a.len()
        invariant
            i <= a@.len(),
            a@.len() == b@.len(),
            forall|j: int| 0 <= j < i ==> a@[j]@ == b@[j]@,
        decreases a@.len() - i,
    {
        if !a[i].selectable_eq(&b[i]) {
            proof {
                assert(selectable_views(a@)[i as int] == a@[i as int]@);
                assert(selectable_views(b@)[i as int] == b@[i as int]@);
            }
            return false;
        }
        i = i + 1;
    }
    proof {
        assert forall|j: int| 0 <= j < selectable_views(a@).len() implies selectable_views(a@)[j]
            == selectable_views(b@)[j] by {
            assert(a@[j]@ == b@[j]@);
        }
        assert(selectable_views(a@) =~= selectable_views(b@));
    }
    true
}

/// A copy of an option sequence, observing equal.
pub fn duplicate_selectables(a: &Vec<Selectable>) -> (r: Vec<Selectable>)
    ensures
        selectable_views(r@) == selectable_views(a@),
{
    let mut out: Vec<Selectable> = Vec::new();
    let mut i: usize = 0;
    while i < a.len()
        invariant
            i <= a@.len(),
            out@.len() == i,
            forall|j: int| 0 <= j < i ==> (#[trigger] out@[j])@ == a@[j]@,
        decreases a@.len() - i,
    {
        out.push(a[i].duplicate());
        i = i + 1;
    }
    proof {
        assert forall|j: int| 0 <= j < selectable_views(out@).len() implies selectable_views(
            out@,
        )[j] == selectable_views(a@)[j] by {
            assert(out@[j]@ == a@[j]@);
        }
        assert(selectable_views(out@) =~= selectable_views(a@));
    }
    out
}

/// Whether every option in `s` carries the type tag `tag`.
pub open spec fn all_tags(s: Seq<SelectableView>, tag: u64) -> bool {
    forall|i: int| 0 <= i < s.len() ==> (#[trigger] s[i]).type_tag == tag
}

/// Whether some option in `s` carries the type tag `tag`.
pub open spec fn some_tag(s: Seq<SelectableView>, tag: u64) -> bool {
    exists|i: int| 0 <= i < s.len() && (#[trigger] s[i]).type_tag == tag
}

/// Scans a sequence of options for one whose type tag differs from
/// `tag`: nothing when all match, else some differing tag that occurs.
pub fn first_tag_mismatch(v: &Vec<Selectable>, tag: u64) -> (r: Option<u64>)
    ensures
        r is None <==> all_tags(selectable_views(v@), tag),
        r matches Some(found) ==> found != tag && some_tag(selectable_views(v@), found),
{
    let mut i: usize = 0;
    while i < v.len()
        invariant
            i <= v@.len(),
            forall|j: int|
                0 <= j < i ==> (#[trigger] selectable_views(v@)[j]).type_tag == tag,
        decreases v@.len() - i,
    {
        if v[i].type_tag != tag {
            let found = v[i].type_tag;
            proof {
                assert(selectable_views(v@)[i as int].type_tag == v@[i as int]@.type_tag);
            }
            return Some(found);
        }
        i = i + 1;
    }
    None
}

/// A source of selectable options. Loading happens outside (it is
/// asynchronous and application-defined); a source stores the loaded
/// set once it arrives and hands it out on demand.
pub trait CrudSelectableSource: Sized {
    /// The options loaded so far, if any.
    spec fn spec_loaded(&self) -> Option<Seq<SelectableView>>;

    /// A fresh source, with nothing loaded yet.
    fn new() -> (r: Self)
        ensures
            r.spec_loaded() is None,
    ;

    /// Stores a loaded set of options.
    fn set_selectable(&mut self, selectable: Vec<Selectable>)
        ensures
            final(self).spec_loaded() == Some(selectable_views(selectable@)),
    ;

    /// Hands out the loaded options; nothing before any load completed.
    fn get_selectable(&self) -> (r: Option<Vec<Selectable>>)
        ensures
            r is Some <==> self.spec_loaded() is Some,
            r matches Some(options) ==> Some(selectable_views(options@)) == self.spec_loaded(),
    ;
}

/// The in-memory source: it simply remembers the last loaded set.
#[derive(Debug)]
pub struct MemorySelectableSource {
    options: Option<Vec<Selectable>>,
}

impl CrudSelectableSource for MemorySelectableSource {
    closed spec fn spec_loaded(&self) -> Option<Seq<SelectableView>> {
        match self.options {
            Some(ref v) => Some(selectable_views(v@)),
            None => None,
        }
    }

    fn new() -> (r: Self) {
        MemorySelectableSource { options: None }
    }

    fn set_selectable(&mut self, selectable: Vec<Selectable>) {
        self.options = Some(selectable);
    }

    fn get_selectable(&self) -> (r: Option<Vec<Selectable>>) {
        match &self.options {
            Some(v) => Some(duplicate_selectables(v)),
            None => None,
        }
    }
}

} // verus!
