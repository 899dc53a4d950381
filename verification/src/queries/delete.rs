//! Deleting the rows that meet a condition.

use vstd::prelude::*;
use crate::builder::{added, document, Braced, Builder, BuilderView, Maybe};
use crate::conditions::Conditions;
use crate::entity::{all_of, lemma_declares_all, concerns, declares, Entity};
use crate::fields::Fields;
use crate::traits::{Mutation, Render};

verus! {

/// The rows of a table that meet the conditions, deleted.
#[derive(Debug)]
pub struct Delete<'a> {
    pub entity: &'a Entity,
    pub conditions: Conditions,
    pub affected_rows: bool,
    pub returning: Fields,
}

impl<'a> Delete<'a> {
    /// Whether the conditions and the fields are of fields of the table.
    pub open spec fn wf(self) -> bool {
        &&& concerns(*self.entity, self.conditions)
        &&& declares(*self.entity, self.returning@)
    }

    /// The name of the operation: `delete_` and that of the table.
    pub open spec fn operation(self) -> Seq<char> {
        "delete_"@ + self.entity.table@
    }

    /// The parameters that are written: the conditions, where they stand
    /// for one.
    pub open spec fn parameters(self) -> Seq<(Seq<char>, Seq<char>)> {
        added(Seq::empty(), "where"@, Braced(&self.conditions).shown())
    }

    /// The text of the operation: the rows come back under `returning`.
    pub open spec fn operation_text(self) -> Seq<char> {
        document(
            BuilderView {
                name: self.operation(),
                returning: self.returning@,
                params: self.parameters(),
                pk: None,
                affected: self.affected_rows,
                explicit: true,
            },
        )
    }

    /// The deletion from `entity`, of every row so far, which returns all
    /// fields.
    pub fn new(entity: &'a Entity) -> (out: Delete<'a>)
        ensures
            out.entity == entity,
            out.conditions == Conditions::Empty,
            !out.affected_rows,
            out.returning@ == all_of(*entity),
            out.wf(),
    {
        proof {
            lemma_declares_all(*entity);
        }
        Delete {
            entity,
            conditions: Conditions::Empty,
            affected_rows: false,
            returning: entity.all(),
        }
    }

    /// The rows that meet `conditions` only.
    pub fn conditions(self, conditions: Conditions) -> (out: Delete<'a>)
        requires
            concerns(*self.entity, conditions),
        ensures
            out == (Delete { conditions, ..self }),
            self.wf() ==> out.wf(),
    {
        let mut out = self;
        out.conditions = conditions;
        out
    }

    /// Whether the count of the deleted rows comes back too.
    pub fn affected_rows(self, affected_rows: bool) -> (out: Delete<'a>)
        ensures
            out == (Delete { affected_rows, ..self }),
            self.wf() ==> out.wf(),
    {
        let mut out = self;
        out.affected_rows = affected_rows;
        out
    }

    /// The fields `returning` of each deleted row.
    pub fn returning(self, returning: Fields) -> (out: Delete<'a>)
        requires
            declares(*self.entity, returning@),
        ensures
            out == (Delete { returning, ..self }),
            self.wf() ==> out.wf(),
    {
        let mut out = self;
        out.returning = returning;
        out
    }

    /// The name of the operation.
    pub fn name(&self) -> (out: String)
        ensures
            out@ == self.operation(),
    {
        let mut out = String::from_str("delete_");
        out.append(self.entity.table.as_str());
        out
    }

    /// The text of the operation.
    pub fn to_string(&self) -> (out: String)
        ensures
            out@ == self.operation_text(),
    {
        Builder::new(self.name(), &self.returning).maybe(
            "where",
            &Braced(&self.conditions),
        ).affected(self.affected_rows).explicit(true).write()
    }
}

/// With conditions that stand for none the operation has no `where`
/// parameter at all.
pub proof fn lemma_no_where(operation: Delete)
    requires
        operation.conditions.vacant(),
    ensures
        operation.parameters() == Seq::<(Seq<char>, Seq<char>)>::empty(),
{
}

/// The text of the operation starts with its name, the key under which
/// its result stands in a response.
pub proof fn lemma_name_first(operation: Delete)
    ensures
        operation.operation_text().len() >= operation.operation().len(),
        operation.operation_text().subrange(0, operation.operation().len() as int)
            == operation.operation(),
{
}

impl<'a> Render for Delete<'a> {
    open spec fn text(&self) -> Seq<char> {
        self.operation_text()
    }

    fn render(&self) -> (out: String) {
        self.to_string()
    }
}

impl<'a> Mutation for Delete<'a> {
    open spec fn name_text(&self) -> Seq<char> {
        self.operation()
    }

    open spec fn is_explicit(&self) -> bool {
        true
    }

    fn name(&self) -> (out: String) {
        Delete::name(self)
    }

    fn explicit(&self) -> (out: bool) {
        true
    }
}

} // verus!
