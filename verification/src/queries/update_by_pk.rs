//! Updating one row by its primary key.

use vstd::prelude::*;
use crate::builder::{document, Builder, BuilderView, Serialized};
use crate::entity::{all_of, lemma_declares_all, declares, fits, is_key, Entity};
use crate::fields::Fields;
use crate::serializer::Literal;
use crate::traits::{Mutation, Render};

verus! {

/// The row of a table with the given primary key, set to `set`.
#[derive(Debug)]
pub struct UpdateByPk<'a> {
    pub entity: &'a Entity,
    pub pk: Literal,
    pub set: &'a Literal,
    pub returning: Fields,
}

impl<'a> UpdateByPk<'a> {
    /// Whether the key is one of the table, the new values have the shape
    /// that the table asks for, and the fields are fields of the table.
    pub open spec fn wf(self) -> bool {
        &&& is_key(*self.entity, self.pk)
        &&& fits(*self.entity, *self.set)
        &&& declares(*self.entity, self.returning@)
    }

    /// The name of the operation: `update_`, that of the table, and
    /// `_by_pk`.
    pub open spec fn operation(self) -> Seq<char> {
        "update_"@ + self.entity.table@ + "_by_pk"@
    }

    /// The parameters: the key, then the new values, both as structs.
    pub open spec fn parameters(self) -> Seq<(Seq<char>, Seq<char>)> {
        seq![("pk_columns"@, self.pk.rendered(true)), ("_set"@, self.set.rendered(true))]
    }

    /// The text of the operation.
    pub open spec fn operation_text(self) -> Seq<char> {
        document(
            BuilderView {
                name: self.operation(),
                returning: self.returning@,
                params: self.parameters(),
                pk: None,
                affected: false,
                explicit: false,
            },
        )
    }

    /// The update of the row of `entity` with the primary key `pk` to `set`,
    /// which returns all fields.
    pub fn new(entity: &'a Entity, pk: Literal, set: &'a Literal) -> (out: UpdateByPk<'a>)
        requires
            is_key(*entity, pk),
            fits(*entity, *set),
        ensures
            out.entity == entity,
            out.pk == pk,
            out.set == set,
            out.returning@ == all_of(*entity),
            out.wf(),
    {
        proof {
            lemma_declares_all(*entity);
        }
        UpdateByPk { entity, pk, set, returning: entity.all() }
    }

    /// The fields `returning` of the updated row.
    pub fn returning(self, returning: Fields) -> (out: UpdateByPk<'a>)
        requires
            declares(*self.entity, returning@),
        ensures
            out == (UpdateByPk { returning, ..self }),
            self.wf() ==> out.wf(),
    {
        let mut out = self;
        out.returning = returning;
        out
    }

    /// The name of the operation.
    pub fn name(&self) -> (out: String)
        ensures
            out@ == self.operation(),
    {
        let mut out = String::from_str("update_");
        out.append(self.entity.table.as_str());
        out.append("_by_pk");
        out
    }

    /// The text of the operation.
    pub fn to_string(&self) -> (out: String)
        ensures
            out@ == self.operation_text(),
    {
        let builder = Builder::new(self.name(), &self.returning).param(
            "pk_columns",
            &Serialized(&self.pk),
        ).param("_set", &Serialized(self.set));
        assert(builder@.params == self.parameters());
        builder.write()
    }
}

/// The text of the operation starts with its name, the key under which
/// its result stands in a response.
pub proof fn lemma_name_first(operation: UpdateByPk)
    ensures
        operation.operation_text().len() >= operation.operation().len(),
        operation.operation_text().subrange(0, operation.operation().len() as int)
            == operation.operation(),
{
}

impl<'a> Render for UpdateByPk<'a> {
    open spec fn text(&self) -> Seq<char> {
        self.operation_text()
    }

    fn render(&self) -> (out: String) {
        self.to_string()
    }
}

impl<'a> Mutation for UpdateByPk<'a> {
    open spec fn name_text(&self) -> Seq<char> {
        self.operation()
    }

    open spec fn is_explicit(&self) -> bool {
        false
    }

    fn name(&self) -> (out: String) {
        UpdateByPk::name(self)
    }

    fn explicit(&self) -> (out: bool) {
        false
    }
}

} // verus!
