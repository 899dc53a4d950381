//! Reading one row by its primary key.

use vstd::prelude::*;
use crate::builder::{document, Builder, BuilderView, Flattened};
use crate::entity::{all_of, is_key, Entity};
use crate::fields::Fields;
use crate::serializer::Literal;
use crate::traits::{Queryable, Render};

verus! {

/// The row of a table with the given primary key.
#[derive(Debug)]
pub struct QueryByPk<'a> {
    pub entity: &'a Entity,
    pub pk: Literal,
    pub returning: Fields,
}

impl<'a> QueryByPk<'a> {
    /// Whether the key is one of the table.
    pub open spec fn wf(self) -> bool {
        is_key(*self.entity, self.pk)
    }

    /// The name of the operation: that of the table, and `_by_pk`.
    pub open spec fn operation(self) -> Seq<char> {
        self.entity.table@ + "_by_pk"@
    }

    /// The text of the operation: the key stands flat in front of the
    /// parameters, of which there are none.
    pub open spec fn operation_text(self) -> Seq<char> {
        document(
            BuilderView {
                name: self.operation(),
                returning: self.returning@,
                params: Seq::empty(),
                pk: Some(self.pk.rendered(false)),
                affected: false,
                explicit: false,
            },
        )
    }

    /// The row of `entity` with the primary key `pk`, with all its fields.
    pub fn new(entity: &'a Entity, pk: Literal) -> (out: QueryByPk<'a>)
        requires
            is_key(*entity, pk),
        ensures
            out.entity == entity,
            out.pk == pk,
            out.returning@ == all_of(*entity),
            out.wf(),
    {
        QueryByPk { entity, pk, returning: entity.all() }
    }

    /// The fields `returning` of the row.
    pub fn returning(self, returning: Fields) -> (out: QueryByPk<'a>)
        ensures
            out == (QueryByPk { returning, ..self }),
            self.wf() ==> out.wf(),
    {
        let mut out = self;
        out.returning = returning;
        out
    }

    /// The name of the operation.
    pub fn name(&self) -> (out: String)
        ensures
            out@ == self.operation(),
    {
        let mut out = self.entity.table();
        out.append("_by_pk");
        out
    }

    /// The text of the operation.
    pub fn to_string(&self) -> (out: String)
        ensures
            out@ == self.operation_text(),
    {
        Builder::new(self.name(), &self.returning).pk(&Flattened(&self.pk)).write()
    }
}

/// The text of the operation starts with its name, the key under which
/// its result stands in a response.
pub proof fn lemma_name_first(operation: QueryByPk)
    ensures
        operation.operation_text().len() >= operation.operation().len(),
        operation.operation_text().subrange(0, operation.operation().len() as int)
            == operation.operation(),
{
}

impl<'a> Render for QueryByPk<'a> {
    open spec fn text(&self) -> Seq<char> {
        self.operation_text()
    }

    fn render(&self) -> (out: String) {
        self.to_string()
    }
}

impl<'a> Queryable for QueryByPk<'a> {
    open spec fn name_text(&self) -> Seq<char> {
        self.operation()
    }

    fn name(&self) -> (out: String) {
        QueryByPk::name(self)
    }
}

} // verus!
