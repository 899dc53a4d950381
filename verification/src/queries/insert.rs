//! Inserting rows.

use vstd::prelude::*;
use crate::builder::{added, document, Builder, BuilderView, Maybe, Separalized};
use crate::entity::{all_of, lemma_declares_all, declares, fits, Entity};
use crate::fields::Fields;
use crate::on_conflict::OnConflict;
use crate::serializer::Literal;
use crate::traits::{Mutation, Render};

verus! {

/// The rows `objects`, inserted into a table.
#[derive(Debug)]
pub struct Insert<'a> {
    pub entity: &'a Entity,
    pub objects: &'a [Literal],
    pub affected_rows: bool,
    pub on_conflict: Option<OnConflict>,
    pub returning: Fields,
}

impl<'a> Insert<'a> {
    /// Whether every row has the shape that the table asks for, and the
    /// fields are fields of the table.
    pub open spec fn wf(self) -> bool {
        &&& forall|i: int| 0 <= i < self.objects@.len() ==> fits(*self.entity, #[trigger] self.objects@[i])
        &&& declares(*self.entity, self.returning@)
    }

    /// The name of the operation: `insert_` and that of the table.
    pub open spec fn operation(self) -> Seq<char> {
        "insert_"@ + self.entity.table@
    }

    /// The parameters that are written: the rows where there is one, and
    /// the conflict clause where one was given.
    pub open spec fn parameters(self) -> Seq<(Seq<char>, Seq<char>)> {
        added(
            added(Seq::empty(), "objects"@, Separalized(self.objects).shown()),
            "on_conflict"@,
            self.on_conflict.shown(),
        )
    }

    /// The text of the operation: the rows come back under `returning`.
    pub open spec fn operation_text(self) -> Seq<char> {
        document(
            BuilderView {
                name: self.operation(),
                returning: self.returning@,
                params: self.parameters(),
                pk: None,
                affected: self.affected_rows,
                explicit: true,
            },
        )
    }

    /// The insertion of `objects` into `entity`, which returns all fields.
    pub fn new(entity: &'a Entity, objects: &'a [Literal]) -> (out: Insert<'a>)
        requires
            forall|i: int| 0 <= i < objects@.len() ==> fits(*entity, #[trigger] objects@[i]),
        ensures
            out.entity == entity,
            out.objects == objects,
            !out.affected_rows,
            out.on_conflict is None,
            out.returning@ == all_of(*entity),
            out.wf(),
    {
        proof {
            lemma_declares_all(*entity);
        }
        Insert { entity, objects, affected_rows: false, on_conflict: None, returning: entity.all() }
    }

    /// Whether the count of the inserted rows comes back too.
    pub fn affected_rows(self, affected_rows: bool) -> (out: Insert<'a>)
        ensures
            out == (Insert { affected_rows, ..self }),
            self.wf() ==> out.wf(),
    {
        let mut out = self;
        out.affected_rows = affected_rows;
        out
    }

    /// What happens with a row that is already there.
    pub fn on_conflict(self, on_conflict: OnConflict) -> (out: Insert<'a>)
        ensures
            out == (Insert { on_conflict: Some(on_conflict), ..self }),
            self.wf() ==> out.wf(),
    {
        let mut out = self;
        out.on_conflict = Some(on_conflict);
        out
    }

    /// The fields `returning` of each inserted row.
    pub fn returning(self, returning: Fields) -> (out: Insert<'a>)
        requires
            declares(*self.entity, returning@),
        ensures
            out == (Insert { returning, ..self }),
            self.wf() ==> out.wf(),
    {
        let mut out = self;
        out.returning = returning;
        out
    }

    /// The name of the operation.
    pub fn name(&self) -> (out: String)
        ensures
            out@ == self.operation(),
    {
        let mut out = String::from_str("insert_");
        out.append(self.entity.table.as_str());
        out
    }

    /// The text of the operation.
    pub fn to_string(&self) -> (out: String)
        ensures
            out@ == self.operation_text(),
    {
        Builder::new(self.name(), &self.returning).maybe(
            "objects",
            &Separalized(self.objects),
        ).maybe("on_conflict", &self.on_conflict).affected(self.affected_rows).explicit(
            true,
        ).write()
    }
}

/// The text of the operation starts with its name, the key under which
/// its result stands in a response.
pub proof fn lemma_name_first(operation: Insert)
    ensures
        operation.operation_text().len() >= operation.operation().len(),
        operation.operation_text().subrange(0, operation.operation().len() as int)
            == operation.operation(),
{
}

impl<'a> Render for Insert<'a> {
    open spec fn text(&self) -> Seq<char> {
        self.operation_text()
    }

    fn render(&self) -> (out: String) {
        self.to_string()
    }
}

impl<'a> Mutation for Insert<'a> {
    open spec fn name_text(&self) -> Seq<char> {
        self.operation()
    }

    open spec fn is_explicit(&self) -> bool {
        true
    }

    fn name(&self) -> (out: String) {
        Insert::name(self)
    }

    fn explicit(&self) -> (out: bool) {
        true
    }
}

} // verus!
