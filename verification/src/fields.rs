//! The selection model: a field of a table, bare or with the fields selected
//! through a relation, and ordered sets of fields.

use vstd::prelude::*;
use vstd::std_specs::cmp::{PartialEqSpec, PartialEqSpecImpl};
use crate::text::{join, joined, views};
use crate::traits::Render;

verus! {

broadcast use vstd::std_specs::vec::group_vec_axioms;

/// A field by its name; a relation carries the fields selected through it.
#[derive(Debug)]
pub struct Field {
    pub name: String,
    pub nested: Option<Fields>,
}

/// Fields in the order in which they are written.
#[derive(Debug)]
pub struct Fields {
    pub inner: Vec<Field>,
}

/// What a field is: its name as characters, and its nested selection.
pub struct FieldView {
    pub name: Seq<char>,
    pub nested: Option<Seq<FieldView>>,
}

impl View for Field {
    type V = FieldView;

    open spec fn view(&self) -> FieldView {
        field_view(*self)
    }
}

impl View for Fields {
    type V = Seq<FieldView>;

    open spec fn view(&self) -> Seq<FieldView> {
        fields_view(*self)
    }
}

pub open spec fn field_view(field: Field) -> FieldView
    decreases field,
{
    FieldView {
        name: field.name@,
        nested: match field.nested {
            None => None,
            Some(fields) => Some(fields_view(fields)),
        },
    }
}

pub open spec fn fields_view(fields: Fields) -> Seq<FieldView>
    decreases fields,
{
    Seq::new(
        fields.inner@.len(),
        |i: int|
            if 0 <= i < fields.inner@.len() {
                field_view(fields.inner@[i])
            } else {
                arbitrary()
            },
    )
}

impl FieldView {
    /// The text of the field: its name, and behind it, where the nested
    /// selection holds a field, that selection between braces.
    pub open spec fn text(self) -> Seq<char>
        decreases self, 0nat,
    {
        match self.nested {
            Some(inner) if inner.len() > 0 => self.name + " { "@ + fields_text(inner) + " }"@,
            _ => self.name,
        }
    }
}

/// The text of each field, in order.
pub open spec fn field_texts(fields: Seq<FieldView>) -> Seq<Seq<char>>
    decreases fields, 0nat,
{
    Seq::new(
        fields.len(),
        |i: int|
            if 0 <= i < fields.len() {
                fields[i].text()
            } else {
                Seq::empty()
            },
    )
}

/// The text of a set of fields: the fields, a space between each two.
pub open spec fn fields_text(fields: Seq<FieldView>) -> Seq<char>
    decreases fields, 1nat,
{
    joined(field_texts(fields), " "@)
}

/// Whether one of `fields` has the name `name`.
pub open spec fn has_name(fields: Seq<FieldView>, name: Seq<char>) -> bool {
    exists|i: int| 0 <= i < fields.len() && #[trigger] fields[i].name == name
}

/// `all` without the fields that share their name with one of `removed`, in
/// the order of `all`.
pub open spec fn without(all: Seq<FieldView>, removed: Seq<FieldView>) -> Seq<FieldView> {
    all.filter(|f: FieldView| !has_name(removed, f.name))
}

/// The views of a slice of fields.
pub open spec fn field_views(fields: Seq<Field>) -> Seq<FieldView> {
    fields.map_values(|f: Field| f@)
}

impl PartialEq for Field {
    /// Two fields are equal when they have the same name, whatever they
    /// select through it.
    fn eq(&self, other: &Field) -> (out: bool) {
        self.name == other.name
    }
}

impl PartialEqSpecImpl for Field {
    open spec fn obeys_eq_spec() -> bool {
        true
    }

    open spec fn eq_spec(&self, other: &Field) -> bool {
        self.name@ == other.name@
    }
}

impl Clone for Field {
    fn clone(&self) -> (out: Field)
        ensures
            out@ == self@,
        decreases self,
    {
        Field {
            name: self.name.clone(),
            nested: match &self.nested {
                None => None,
                Some(fields) => Some(fields.clone()),
            },
        }
    }
}

impl Clone for Fields {
    fn clone(&self) -> (out: Fields)
        ensures
            out@ == self@,
        decreases self,
    {
        let mut inner: Vec<Field> = Vec::new();
        let mut i: usize = 0;
        while i < self.inner.len()
            invariant
                i <= self.inner.len(),
                inner@.len() == i,
                forall|j: int| 0 <= j < i ==> (#[trigger] inner@[j])@ == self.inner@[j]@,
            decreases self.inner.len() - i,
        {
            inner.push(self.inner[i].clone());
            i += 1;
        }
        Fields { inner }
    }
}

impl Field {
    /// A field without a nested selection.
    pub fn new(name: &str) -> (out: Field)
        ensures
            out@ == (FieldView { name: name@, nested: None }),
    {
        Field { name: String::from_str(name), nested: None }
    }

    /// A relation, with the fields selected through it.
    pub fn recursive(name: &str, keys: Fields) -> (out: Field)
        ensures
            out@ == (FieldView { name: name@, nested: Some(keys@) }),
    {
        Field { name: String::from_str(name), nested: Some(keys) }
    }

    /// The text of the field.
    pub fn to_string(&self) -> (out: String)
        ensures
            out@ == self@.text(),
        decreases self,
    {
        match &self.nested {
            Some(fields) if fields.inner.len() > 0 => {
                let mut out = self.name.clone();
                out.append(" { ");
                out.append(fields.to_string().as_str());
                out.append(" }");
                out
            },
            _ => self.name.clone(),
        }
    }
}

impl Fields {
    /// The text of the fields, a space between each two.
    pub fn to_string(&self) -> (out: String)
        ensures
            out@ == fields_text(self@),
        decreases self,
    {
        let mut parts: Vec<String> = Vec::new();
        let mut i: usize = 0;
        while i < self.inner.len()
            invariant
                i <= self.inner.len(),
                parts@.len() == i,
                forall|j: int| 0 <= j < i ==> (#[trigger] parts@[j])@ == self.inner@[j]@.text(),
            decreases self.inner.len() - i,
        {
            parts.push(self.inner[i].to_string());
            i += 1;
        }
        assert(views(parts@) == field_texts(self@));
        join(&parts, " ")
    }

    /// Whether one of the fields has the name of `field`.
    pub fn contains(fields: &[Field], field: &Field) -> (out: bool)
        ensures
            out == has_name(field_views(fields@), field@.name),
    {
        let mut i: usize = 0;
        while i < fields.len()
            invariant
                i <= fields.len(),
                forall|j: int| 0 <= j < i ==> fields@[j].name@ != field.name@,
            decreases fields.len() - i,
        {
            if fields[i] == *field {
                assert(field_views(fields@)[i as int].name == field@.name);
                return true;
            }
            i += 1;
        }
        false
    }

    /// The fields without those that share their name with one of `fields`,
    /// in the same order.
    pub fn except(&self, fields: &[Field]) -> (out: Fields)
        ensures
            out@ == without(self@, field_views(fields@)),
    {
        let ghost removed = field_views(fields@);
        let ghost keep = |f: FieldView| !has_name(removed, f.name);
        let mut inner: Vec<Field> = Vec::new();
        let mut i: usize = 0;
        while i < self.inner.len()
            invariant
                i <= self.inner.len(),
                removed == field_views(fields@),
                keep == (|f: FieldView| !has_name(removed, f.name)),
                field_views(inner@) == self@.take(i as int).filter(keep),
            decreases self.inner.len() - i,
        {
            let field = &self.inner[i];
            proof {
                reveal(Seq::filter);
                assert(self@.take(i + 1).drop_last() == self@.take(i as int));
            }
            if !Fields::contains(fields, field) {
                let copy = field.clone();
                inner.push(copy);
            }
            i += 1;
        }
        proof {
            assert(self@.take(self.inner.len() as int) == self@);
        }
        let out = Fields { inner };
        out
    }
}

impl Render for Field {
    open spec fn text(&self) -> Seq<char> {
        self@.text()
    }

    fn render(&self) -> (out: String) {
        self.to_string()
    }
}

impl Render for Fields {
    open spec fn text(&self) -> Seq<char> {
        fields_text(self@)
    }

    fn render(&self) -> (out: String) {
        self.to_string()
    }
}

/// Fields are equal by name alone: a bare field equals the relation of the
/// same name, whatever is selected through it.
pub proof fn lemma_equal_by_name(a: Field, b: Field)
    ensures
        PartialEqSpec::eq_spec(&a, &b) <==> a@.name == b@.name,
{
}

/// Taking fields away goes by name alone: two sets of fields with the same
/// names take the same fields away.
pub proof fn lemma_without_by_name(
    all: Seq<FieldView>,
    removed: Seq<FieldView>,
    other: Seq<FieldView>,
)
    requires
        forall|name: Seq<char>| has_name(removed, name) == has_name(other, name),
    ensures
        without(all, removed) == without(all, other),
    decreases all.len(),
{
    reveal(Seq::filter);
    if all.len() > 0 {
        lemma_without_by_name(all.drop_last(), removed, other);
    }
}

/// Whether `part` is `whole` with some of its fields left out: the same
/// fields, in the same order.
pub open spec fn kept_in_order(part: Seq<FieldView>, whole: Seq<FieldView>) -> bool
    decreases whole.len(),
{
    if part.len() == 0 {
        true
    } else if whole.len() == 0 {
        false
    } else {
        ||| part.last() == whole.last() && kept_in_order(part.drop_last(), whole.drop_last())
        ||| kept_in_order(part, whole.drop_last())
    }
}

/// What is left after taking fields away shares no name with them, holds
/// every other field that was there, and stands in the order it stood in.
pub proof fn lemma_without(all: Seq<FieldView>, removed: Seq<FieldView>)
    ensures
        forall|i: int|
            0 <= i < without(all, removed).len() ==> !has_name(
                removed,
                (#[trigger] without(all, removed)[i]).name,
            ),
        forall|k: int|
            0 <= k < all.len() && !has_name(removed, (#[trigger] all[k]).name) ==> without(
                all,
                removed,
            ).contains(all[k]),
        kept_in_order(without(all, removed), all),
    decreases all.len(),
{
    reveal(Seq::filter);
    let left = without(all, removed);
    if all.len() > 0 {
        let front = all.drop_last();
        let front_left = without(front, removed);
        lemma_without(front, removed);
        if !has_name(removed, all.last().name) {
            assert(left.drop_last() == front_left);
        }
    }
}

} // verus!
