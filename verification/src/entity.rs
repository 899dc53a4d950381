//! Entities: the description of a table that the operations are built from.

use vstd::prelude::*;
use crate::conditions::Conditions;
use crate::fields::{field_views, without, Field, FieldView, Fields};
use crate::serializer::{Literal, Member};

verus! {

broadcast use vstd::std_specs::vec::group_vec_axioms;

/// The kind of a scalar.
#[derive(Clone, Copy, PartialEq, Eq, Structural, Debug)]
pub enum Scalar {
    Bool,
    Unsigned,
    Signed,
    Decimal,
    Text,
}

/// One declared field of a table: a scalar, or a relation to another table.
#[derive(Debug)]
pub struct Column {
    pub name: String,
    pub relation: Option<Entity>,
}

/// A table: its name, its fields in the declared order, the components of
/// its primary key, and the fields that a row to insert or to set may hold,
/// where those are fewer than all.
#[derive(Debug)]
pub struct Entity {
    pub table: String,
    pub columns: Vec<Column>,
    pub primary_key: Vec<(String, Scalar)>,
    pub draft: Option<Vec<String>>,
}

impl Scalar {
    /// Whether `value` is a scalar of this kind.
    pub open spec fn holds(self, value: Literal) -> bool {
        match self {
            Scalar::Bool => value is Bool,
            Scalar::Unsigned => value is Unsigned,
            Scalar::Signed => value is Signed,
            Scalar::Decimal => value is Decimal,
            Scalar::Text => value is Text,
        }
    }

    /// Whether `value` is a scalar of this kind.
    pub fn admits(&self, value: &Literal) -> (out: bool)
        ensures
            out == self.holds(*value),
    {
        match (self, value) {
            (Scalar::Bool, Literal::Bool(_)) => true,
            (Scalar::Unsigned, Literal::Unsigned(_)) => true,
            (Scalar::Signed, Literal::Signed(_)) => true,
            (Scalar::Decimal, Literal::Decimal(_)) => true,
            (Scalar::Text, Literal::Text(_)) => true,
            _ => false,
        }
    }
}

/// The field that selects a column: bare for a scalar, and for a relation
/// with every field of the table it leads to.
pub open spec fn column_field(column: Column) -> FieldView
    decreases column,
{
    FieldView {
        name: column.name@,
        nested: match column.relation {
            Some(target) => Some(all_of(target)),
            None => None,
        },
    }
}

/// Every declared field of a table, in the declared order, relations
/// expanded all the way down.
pub open spec fn all_of(entity: Entity) -> Seq<FieldView>
    decreases entity,
{
    Seq::new(
        entity.columns@.len(),
        |i: int|
            if 0 <= i < entity.columns@.len() {
                column_field(entity.columns@[i])
            } else {
                arbitrary()
            },
    )
}

/// Whether `entity` declares every field of `fields`.
pub open spec fn declares(entity: Entity, fields: Seq<FieldView>) -> bool
    decreases fields,
{
    forall|i: int| 0 <= i < fields.len() ==> declares_field(entity, #[trigger] fields[i])
}

/// Whether `entity` declares `field`: it has a column of that name, and what
/// the field selects through it is declared by the table that the column
/// leads to.
pub open spec fn declares_field(entity: Entity, field: FieldView) -> bool
    decreases field, 1nat,
{
    exists|j: int|
        0 <= j < entity.columns@.len() && column_declares(#[trigger] entity.columns@[j], field)
}

/// Whether `column` has the name of `field`, and where the field selects
/// through it, it is a relation to a table that declares the selection.
pub open spec fn column_declares(column: Column, field: FieldView) -> bool
    decreases field, 0nat,
{
    &&& column.name@ == field.name
    &&& match field.nested {
        None => true,
        Some(inner) => match column.relation {
            Some(target) => declares(target, inner),
            None => false,
        },
    }
}

/// A table declares all its fields: the full selection is always allowed.
pub proof fn lemma_declares_all(entity: Entity)
    ensures
        declares(entity, all_of(entity)),
    decreases entity,
{
    assert forall|i: int| 0 <= i < all_of(entity).len() implies declares_field(
        entity,
        #[trigger] all_of(entity)[i],
    ) by {
        let column = entity.columns@[i];
        match column.relation {
            Some(target) => {
                lemma_declares_all(target);
            },
            None => {},
        }
    }
}

/// Whether every comparison in `conditions` is of a field that `entity`
/// declares.
pub open spec fn concerns(entity: Entity, conditions: Conditions) -> bool
    decreases conditions,
{
    match conditions {
        Conditions::And(l, r) => concerns(entity, *l) && concerns(entity, *r),
        Conditions::Or(l, r) => concerns(entity, *l) && concerns(entity, *r),
        Conditions::Not(c) => concerns(entity, *c),
        Conditions::Leaf(field, _) => declares_field(entity, field@),
        Conditions::Empty => true,
    }
}

/// The names that a row to insert or to set may hold: those of the draft
/// where the table has one, else those of all its fields.
pub open spec fn shape(entity: Entity) -> Seq<Seq<char>> {
    match entity.draft {
        Some(names) => names@.map_values(|n: String| n@),
        None => entity.columns@.map_values(|c: Column| c.name@),
    }
}

/// Whether `value` is a row that may be inserted into the table, or set in
/// it: a struct whose members are all named in the shape.
pub open spec fn fits(entity: Entity, value: Literal) -> bool {
    value matches Literal::Object(members) && forall|i: int|
        0 <= i < members@.len() ==> shape(entity).contains((#[trigger] members@[i]).name@)
}

/// Whether `value` is a primary key of the table: a struct of exactly the
/// declared components, in their order, each a scalar of the declared kind
/// that is always written.
pub open spec fn is_key(entity: Entity, value: Literal) -> bool {
    value matches Literal::Object(members) && members@.len() == entity.primary_key@.len()
        && forall|i: int|
        0 <= i < members@.len() ==> {
            &&& (#[trigger] members@[i]).name@ == entity.primary_key@[i].0@
            &&& entity.primary_key@[i].1.holds(members@[i].value)
            &&& !members@[i].skip_if_empty
        }
}

/// Whether `values` are the components of a primary key of the table: as
/// many as declared, each a scalar of the declared kind.
pub open spec fn keyed(entity: Entity, values: Seq<Literal>) -> bool {
    values.len() == entity.primary_key@.len() && forall|i: int|
        0 <= i < values.len() ==> (#[trigger] entity.primary_key@[i]).1.holds(values[i])
}

/// The values of the members of a struct, in order.
pub open spec fn components(key: Literal) -> Seq<Literal> {
    match key {
        Literal::Object(members) => members@.map_values(|m: Member| m.value),
        _ => Seq::empty(),
    }
}

impl Column {
    /// A scalar field.
    pub fn scalar(name: &str) -> (out: Column)
        ensures
            out.name@ == name@,
            out.relation is None,
    {
        Column { name: String::from_str(name), relation: None }
    }

    /// A relation to the table `target`.
    pub fn relation(name: &str, target: Entity) -> (out: Column)
        ensures
            out.name@ == name@,
            out.relation == Some(target),
    {
        Column { name: String::from_str(name), relation: Some(target) }
    }

    /// The field that selects the column.
    pub fn field(&self) -> (out: Field)
        ensures
            out@ == column_field(*self),
        decreases self,
    {
        Field {
            name: self.name.clone(),
            nested: match &self.relation {
                Some(target) => Some(target.all()),
                None => None,
            },
        }
    }
}

impl Entity {
    /// The table `table` with the fields `columns` and the primary key
    /// `primary_key`; a row to insert may hold every field.
    pub fn new(table: &str, columns: Vec<Column>, primary_key: Vec<(String, Scalar)>) -> (out:
        Entity)
        ensures
            out.table@ == table@,
            out.columns == columns,
            out.primary_key == primary_key,
            out.draft is None,
    {
        Entity { table: String::from_str(table), columns, primary_key, draft: None }
    }

    /// The same table, where a row to insert or to set holds the fields
    /// `names` only.
    pub fn draft(self, names: Vec<String>) -> (out: Entity)
        ensures
            out == (Entity { draft: Some(names), ..self }),
    {
        let mut out = self;
        out.draft = Some(names);
        out
    }

    /// The name of the table.
    pub fn table(&self) -> (out: String)
        ensures
            out@ == self.table@,
    {
        self.table.clone()
    }

    /// Every declared field, in the declared order, relations expanded.
    pub fn all(&self) -> (out: Fields)
        ensures
            out@ == all_of(*self),
        decreases self,
    {
        let mut inner: Vec<Field> = Vec::new();
        let mut i: usize = 0;
        while i < self.columns.len()
            invariant
                i <= self.columns.len(),
                inner@.len() == i,
                forall|j: int|
                    0 <= j < i ==> (#[trigger] inner@[j])@ == column_field(self.columns@[j]),
            decreases self.columns.len() - i,
        {
            inner.push(self.columns[i].field());
            i += 1;
        }
        Fields { inner }
    }

    /// Every declared field but those that share their name with one of
    /// `fields`, in the declared order.
    pub fn except(&self, fields: &[Field]) -> (out: Fields)
        ensures
            out@ == without(all_of(*self), field_views(fields@)),
    {
        self.all().except(fields)
    }

    /// The field that selects the first column called `name`, if there is
    /// one.
    pub fn field(&self, name: &str) -> (out: Option<Field>)
        ensures
            match out {
                Some(field) => exists|j: int|
                    0 <= j < self.columns@.len() && (#[trigger] self.columns@[j]).name@ == name@
                        && field@ == column_field(self.columns@[j]) && forall|k: int|
                        0 <= k < j ==> (#[trigger] self.columns@[k]).name@ != name@,
                None => forall|j: int|
                    0 <= j < self.columns@.len() ==> (#[trigger] self.columns@[j]).name@ != name@,
            },
    {
        let wanted = String::from_str(name);
        let mut i: usize = 0;
        while i < self.columns.len()
            invariant
                i <= self.columns.len(),
                wanted@ == name@,
                forall|j: int| 0 <= j < i ==> (#[trigger] self.columns@[j]).name@ != name@,
            decreases self.columns.len() - i,
        {
            if self.columns[i].name == wanted {
                return Some(self.columns[i].field());
            }
            i += 1;
        }
        None
    }
}

impl Entity {
    /// The primary key with the components `values`, in the declared order,
    /// where they are as many as declared and each of the declared kind.
    pub fn pk(&self, values: Vec<Literal>) -> (out: Option<Literal>)
        ensures
            out is Some <==> keyed(*self, values@),
            out matches Some(key) ==> is_key(*self, key) && components(key) == values@,
            out matches Some(key) ==> ((forall|i: int|
                0 <= i < values@.len() ==> (#[trigger] values@[i]).wf()) ==> key.wf()),
    {
        if values.len() != self.primary_key.len() {
            return None;
        }
        let mut i: usize = 0;
        while i < values.len()
            invariant
                i <= values.len(),
                values.len() == self.primary_key.len(),
                forall|j: int|
                    0 <= j < i ==> (#[trigger] self.primary_key@[j]).1.holds(values@[j]),
            decreases values.len() - i,
        {
            if !self.primary_key[i].1.admits(&values[i]) {
                return None;
            }
            i += 1;
        }
        let ghost all = values@;
        let mut members: Vec<Member> = Vec::new();
        for value in rest: values
            invariant
                keyed(*self, all),
                rest.seq() == all,
                members@.len() == rest.index(),
                forall|j: int|
                    0 <= j < members@.len() ==> {
                        &&& (#[trigger] members@[j]).name@ == self.primary_key@[j].0@
                        &&& members@[j].value == all[j]
                        &&& !members@[j].skip_if_empty
                    },
        {
            let name = self.primary_key[members.len()].0.clone();
            members.push(Member { name, value, skip_if_empty: false });
        }
        proof {
            if forall|i: int| 0 <= i < all.len() ==> (#[trigger] all[i]).wf() {
                assert forall|j: int| 0 <= j < members@.len() implies (
                #[trigger] members@[j]).wf() by {
                    assert(members@[j].value == all[j]);
                }
            }
        }
        let out = Literal::Object(members);
        Some(out)
    }
}

impl Entity {
    /// Whether the table declares every field of `fields`, nested
    /// selections included.
    pub fn covers(&self, fields: &Fields) -> (out: bool)
        ensures
            out == declares(*self, fields@),
        decreases fields,
    {
        let mut i: usize = 0;
        while i < fields.inner.len()
            invariant
                i <= fields.inner.len(),
                forall|j: int| 0 <= j < i ==> declares_field(*self, #[trigger] fields@[j]),
            decreases fields.inner.len() - i,
        {
            if !self.covers_field(&fields.inner[i]) {
                assert(!declares_field(*self, fields@[i as int]));
                return false;
            }
            i += 1;
        }
        true
    }

    /// Whether the table declares `field`, and the tables behind it what the
    /// field selects through it.
    pub fn covers_field(&self, field: &Field) -> (out: bool)
        ensures
            out == declares_field(*self, field@),
        decreases field,
    {
        let mut j: usize = 0;
        while j < self.columns.len()
            invariant
                j <= self.columns.len(),
                forall|k: int| 0 <= k < j ==> !column_declares(#[trigger] self.columns@[k], field@),
            decreases self.columns.len() - j,
        {
            let column = &self.columns[j];
            let found = column.name == field.name && match &field.nested {
                None => true,
                Some(inner) => match &column.relation {
                    Some(target) => target.covers(inner),
                    None => false,
                },
            };
            if found {
                return true;
            }
            j += 1;
        }
        false
    }

    /// Whether every comparison in `conditions` is of a field that the
    /// table declares.
    pub fn owns(&self, conditions: &Conditions) -> (out: bool)
        ensures
            out == concerns(*self, *conditions),
        decreases conditions,
    {
        match conditions {
            Conditions::And(l, r) => self.owns(l) && self.owns(r),
            Conditions::Or(l, r) => self.owns(l) && self.owns(r),
            Conditions::Not(c) => self.owns(c),
            Conditions::Leaf(field, _) => self.covers_field(field),
            Conditions::Empty => true,
        }
    }

    /// Whether the shape of the table names `name`.
    #[verifier::loop_isolation(false)]
    pub fn shapes(&self, name: &String) -> (out: bool)
        ensures
            out == shape(*self).contains(name@),
    {
        match &self.draft {
            Some(names) => {
                let mut i: usize = 0;
                while i < names.len()
                    invariant
                        i <= names.len(),
                        forall|j: int| 0 <= j < i ==> (#[trigger] names@[j])@ != name@,
                    decreases names.len() - i,
                {
                    if names[i] == *name {
                        assert(shape(*self)[i as int] == name@);
                        return true;
                    }
                    i += 1;
                }
                false
            },
            None => {
                let mut i: usize = 0;
                while i < self.columns.len()
                    invariant
                        i <= self.columns.len(),
                        forall|j: int|
                            0 <= j < i ==> (#[trigger] self.columns@[j]).name@ != name@,
                    decreases self.columns.len() - i,
                {
                    if self.columns[i].name == *name {
                        assert(shape(*self)[i as int] == name@);
                        return true;
                    }
                    i += 1;
                }
                false
            },
        }
    }

    /// Whether `value` is a row that may be inserted into the table, or set
    /// in it.
    #[verifier::loop_isolation(false)]
    pub fn accepts(&self, value: &Literal) -> (out: bool)
        ensures
            out == fits(*self, *value),
    {
        match value {
            Literal::Object(members) => {
                let mut i: usize = 0;
                while i < members.len()
                    invariant
                        i <= members.len(),
                        forall|j: int|
                            0 <= j < i ==> shape(*self).contains((#[trigger] members@[j]).name@),
                    decreases members.len() - i,
                {
                    if !self.shapes(&members[i].name) {
                        return false;
                    }
                    i += 1;
                }
                true
            },
            _ => false,
        }
    }

    /// Whether `value` is a primary key of the table.
    #[verifier::loop_isolation(false)]
    pub fn identifies(&self, value: &Literal) -> (out: bool)
        ensures
            out == is_key(*self, *value),
    {
        match value {
            Literal::Object(members) => {
                if members.len() != self.primary_key.len() {
                    return false;
                }
                let mut i: usize = 0;
                while i < members.len()
                    invariant
                        i <= members.len(),
                        members.len() == self.primary_key.len(),
                        forall|j: int|
                            0 <= j < i ==> {
                                &&& (#[trigger] members@[j]).name@ == self.primary_key@[j].0@
                                &&& self.primary_key@[j].1.holds(members@[j].value)
                                &&& !members@[j].skip_if_empty
                            },
                    decreases members.len() - i,
                {
                    let member = &members[i];
                    let component = &self.primary_key[i];
                    if !(member.name == component.0 && component.1.admits(&member.value)
                        && !member.skip_if_empty) {
                        return false;
                    }
                    i += 1;
                }
                true
            },
            _ => false,
        }
    }
}

} // verus!
