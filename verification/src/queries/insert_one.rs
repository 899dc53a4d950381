//! Inserting one row.

use vstd::prelude::*;
use crate::builder::{added, document, Builder, BuilderView, Maybe, Serialized};
use crate::entity::{all_of, lemma_declares_all, declares, fits, Entity};
use crate::fields::Fields;
use crate::on_conflict::OnConflict;
use crate::serializer::Literal;
use crate::traits::{Mutation, Render};

verus! {

/// The row `object`, inserted into a table.
#[derive(Debug)]
pub struct InsertOne<'a> {
    pub entity: &'a Entity,
    pub object: Literal,
    pub on_conflict: Option<OnConflict>,
    pub returning: Fields,
}

impl<'a> InsertOne<'a> {
    /// Whether the row has the shape that the table asks for, and the fields
    /// are fields of the table.
    pub open spec fn wf(self) -> bool {
        &&& fits(*self.entity, self.object)
        &&& declares(*self.entity, self.returning@)
    }

    /// The name of the operation: `insert_`, that of the table, and `_one`.
    pub open spec fn operation(self) -> Seq<char> {
        "insert_"@ + self.entity.table@ + "_one"@
    }

    /// The parameters that are written: the row, and the conflict clause
    /// where one was given.
    pub open spec fn parameters(self) -> Seq<(Seq<char>, Seq<char>)> {
        added(
            seq![("object"@, self.object.rendered(true))],
            "on_conflict"@,
            self.on_conflict.shown(),
        )
    }

    /// The text of the operation.
    pub open spec fn operation_text(self) -> Seq<char> {
        document(
            BuilderView {
                name: self.operation(),
                returning: self.returning@,
                params: self.parameters(),
                pk: None,
                affected: false,
                explicit: false,
            },
        )
    }

    /// The insertion of `object` into `entity`, which returns all fields.
    pub fn new(entity: &'a Entity, object: Literal) -> (out: InsertOne<'a>)
        requires
            fits(*entity, object),
        ensures
            out.entity == entity,
            out.object == object,
            out.on_conflict is None,
            out.returning@ == all_of(*entity),
            out.wf(),
    {
        proof {
            lemma_declares_all(*entity);
        }
        InsertOne { entity, object, on_conflict: None, returning: entity.all() }
    }

    /// What happens if the row is already there.
    pub fn on_conflict(self, on_conflict: OnConflict) -> (out: InsertOne<'a>)
        ensures
            out == (InsertOne { on_conflict: Some(on_conflict), ..self }),
            self.wf() ==> out.wf(),
    {
        let mut out = self;
        out.on_conflict = Some(on_conflict);
        out
    }

    /// The fields `returning` of the inserted row.
    pub fn returning(self, returning: Fields) -> (out: InsertOne<'a>)
        requires
            declares(*self.entity, returning@),
        ensures
            out == (InsertOne { returning, ..self }),
            self.wf() ==> out.wf(),
    {
        let mut out = self;
        out.returning = returning;
        out
    }

    /// The name of the operation.
    pub fn name(&self) -> (out: String)
        ensures
            out@ == self.operation(),
    {
        let mut out = String::from_str("insert_");
        out.append(self.entity.table.as_str());
        out.append("_one");
        out
    }

    /// The text of the operation.
    pub fn to_string(&self) -> (out: String)
        ensures
            out@ == self.operation_text(),
    {
        let builder = Builder::new(self.name(), &self.returning).param(
            "object",
            &Serialized(&self.object),
        );
        builder.maybe("on_conflict", &self.on_conflict).write()
    }
}

/// The text of the operation starts with its name, the key under which
/// its result stands in a response.
pub proof fn lemma_name_first(operation: InsertOne)
    ensures
        operation.operation_text().len() >= operation.operation().len(),
        operation.operation_text().subrange(0, operation.operation().len() as int)
            == operation.operation(),
{
}

impl<'a> Render for InsertOne<'a> {
    open spec fn text(&self) -> Seq<char> {
        self.operation_text()
    }

    fn render(&self) -> (out: String) {
        self.to_string()
    }
}

impl<'a> Mutation for InsertOne<'a> {
    open spec fn name_text(&self) -> Seq<char> {
        self.operation()
    }

    open spec fn is_explicit(&self) -> bool {
        false
    }

    fn name(&self) -> (out: String) {
        InsertOne::name(self)
    }

    fn explicit(&self) -> (out: bool) {
        false
    }
}

} // verus!
