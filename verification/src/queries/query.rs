//! Reading the rows of a table.

use vstd::prelude::*;
use crate::builder::{added, document, texts, Braced, Builder, BuilderView, Maybe, Separated};
use crate::conditions::Conditions;
use crate::entity::{all_of, concerns, Entity};
use crate::fields::{Field, Fields};
use crate::order_by::OrderBy;
use crate::text::joined;
use crate::traits::{Queryable, Render};

verus! {

/// The rows of a table that meet the conditions, in the given order.
#[derive(Debug)]
pub struct Query<'a> {
    pub entity: &'a Entity,
    pub distinct_on: Option<Field>,
    pub limit: Option<u64>,
    pub offset: Option<u64>,
    pub conditions: Option<Conditions>,
    pub order_by: Vec<OrderBy>,
    pub returning: Fields,
}

impl<'a> Query<'a> {
    /// Whether every comparison in the conditions is of a field of the
    /// table.
    pub open spec fn wf(self) -> bool {
        self.conditions matches Some(conditions) ==> concerns(*self.entity, conditions)
    }

    /// The name of the operation: that of the table.
    pub open spec fn operation(self) -> Seq<char> {
        self.entity.table@
    }

    /// The parameters that are written: the order, the field that the rows
    /// are distinct on, the limit, the offset and the conditions, each only
    /// where it was given and holds something.
    pub open spec fn parameters(self) -> Seq<(Seq<char>, Seq<char>)> {
        let order = added(
            Seq::empty(),
            "order_by"@,
            if self.order_by@.len() == 0 {
                None
            } else {
                Some(joined(texts(self.order_by@), ", "@))
            },
        );
        let distinct = added(order, "distinct_on"@, self.distinct_on.shown());
        let limit = added(distinct, "limit"@, self.limit.shown());
        let offset = added(limit, "offset"@, self.offset.shown());
        match self.conditions {
            Some(conditions) => added(offset, "where"@, Braced(&conditions).shown()),
            None => offset,
        }
    }

    /// The text of the operation.
    pub open spec fn operation_text(self) -> Seq<char> {
        document(
            BuilderView {
                name: self.operation(),
                returning: self.returning@,
                params: self.parameters(),
                pk: None,
                affected: false,
                explicit: false,
            },
        )
    }

    /// All rows of `entity`, with all its fields.
    pub fn new(entity: &'a Entity) -> (out: Query<'a>)
        ensures
            out.entity == entity,
            out.distinct_on is None,
            out.limit is None,
            out.offset is None,
            out.conditions is None,
            out.order_by@.len() == 0,
            out.returning@ == all_of(*entity),
            out.wf(),
    {
        Query {
            entity,
            distinct_on: None,
            limit: None,
            offset: None,
            conditions: None,
            order_by: Vec::new(),
            returning: entity.all(),
        }
    }

    /// One row for each value of `distinct_on` only.
    pub fn distinct_on(self, distinct_on: Field) -> (out: Query<'a>)
        ensures
            out == (Query { distinct_on: Some(distinct_on), ..self }),
            self.wf() ==> out.wf(),
    {
        let mut out = self;
        out.distinct_on = Some(distinct_on);
        out
    }

    /// No more than `limit` rows.
    pub fn limit(self, limit: u64) -> (out: Query<'a>)
        ensures
            out == (Query { limit: Some(limit), ..self }),
            self.wf() ==> out.wf(),
    {
        let mut out = self;
        out.limit = Some(limit);
        out
    }

    /// Without the first `offset` rows.
    pub fn offset(self, offset: u64) -> (out: Query<'a>)
        ensures
            out == (Query { offset: Some(offset), ..self }),
            self.wf() ==> out.wf(),
    {
        let mut out = self;
        out.offset = Some(offset);
        out
    }

    /// The rows that meet `conditions` only.
    pub fn conditions(self, conditions: Conditions) -> (out: Query<'a>)
        requires
            concerns(*self.entity, conditions),
        ensures
            out == (Query { conditions: Some(conditions), ..self }),
            out.wf(),
    {
        let mut out = self;
        out.conditions = Some(conditions);
        out
    }

    /// The rows in the order `order_by`.
    pub fn order_by(self, order_by: Vec<OrderBy>) -> (out: Query<'a>)
        ensures
            out == (Query { order_by, ..self }),
            self.wf() ==> out.wf(),
    {
        let mut out = self;
        out.order_by = order_by;
        out
    }

    /// The fields `returning` of each row.
    pub fn returning(self, returning: Fields) -> (out: Query<'a>)
        ensures
            out == (Query { returning, ..self }),
            self.wf() ==> out.wf(),
    {
        let mut out = self;
        out.returning = returning;
        out
    }

    /// The name of the operation.
    pub fn name(&self) -> (out: String)
        ensures
            out@ == self.operation(),
    {
        self.entity.table()
    }

    /// The text of the operation.
    pub fn to_string(&self) -> (out: String)
        ensures
            out@ == self.operation_text(),
    {
        let order = Separated(self.order_by.as_slice());
        let builder = Builder::new(self.name(), &self.returning).maybe("order_by", &order).maybe(
            "distinct_on",
            &self.distinct_on,
        ).maybe("limit", &self.limit).maybe("offset", &self.offset);
        let builder = match &self.conditions {
            Some(conditions) => builder.maybe("where", &Braced(conditions)),
            None => builder,
        };
        builder.write()
    }
}

/// Empty conditions leave no trace: the query reads as if no conditions had
/// been given.
pub proof fn lemma_no_where(operation: Query)
    requires
        operation.conditions matches Some(conditions) && conditions.vacant(),
    ensures
        operation.operation_text() == (Query { conditions: None, ..operation }).operation_text(),
{
}

/// The text of the operation starts with its name, the key under which
/// its result stands in a response.
pub proof fn lemma_name_first(operation: Query)
    ensures
        operation.operation_text().len() >= operation.operation().len(),
        operation.operation_text().subrange(0, operation.operation().len() as int)
            == operation.operation(),
{
}

impl<'a> Render for Query<'a> {
    open spec fn text(&self) -> Seq<char> {
        self.operation_text()
    }

    fn render(&self) -> (out: String) {
        self.to_string()
    }
}

impl<'a> Queryable for Query<'a> {
    open spec fn name_text(&self) -> Seq<char> {
        self.operation()
    }

    fn name(&self) -> (out: String) {
        Query::name(self)
    }
}

} // verus!
