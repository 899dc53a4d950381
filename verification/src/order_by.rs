//! The ordering model: a field, a direction, and where the nulls go.

use vstd::prelude::*;
use crate::fields::Field;
use crate::traits::Render;

verus! {

/// The order of the rows by one field.
#[derive(Debug)]
pub enum OrderBy {
    Asc(Field),
    AscNullsFirst(Field),
    AscNullsLast(Field),
    Desc(Field),
    DescNullsFirst(Field),
    DescNullsLast(Field),
}

impl OrderBy {
    /// The field that the rows are ordered by.
    pub open spec fn field(self) -> Field {
        match self {
            OrderBy::Asc(field) => field,
            OrderBy::AscNullsFirst(field) => field,
            OrderBy::AscNullsLast(field) => field,
            OrderBy::Desc(field) => field,
            OrderBy::DescNullsFirst(field) => field,
            OrderBy::DescNullsLast(field) => field,
        }
    }

    /// The direction and the place of the nulls, as they are written.
    pub open spec fn direction(self) -> Seq<char> {
        match self {
            OrderBy::Asc(_) => "asc"@,
            OrderBy::AscNullsFirst(_) => "asc_nulls_first"@,
            OrderBy::AscNullsLast(_) => "asc_nulls_last"@,
            OrderBy::Desc(_) => "desc"@,
            OrderBy::DescNullsFirst(_) => "desc_nulls_first"@,
            OrderBy::DescNullsLast(_) => "desc_nulls_last"@,
        }
    }

    /// The text of the order: the field, a colon, the direction.
    pub open spec fn order_text(self) -> Seq<char> {
        self.field()@.text() + ": "@ + self.direction()
    }

    /// The text of the order.
    pub fn to_string(&self) -> (out: String)
        ensures
            out@ == self.order_text(),
    {
        let (field, direction) = match self {
            OrderBy::Asc(field) => (field, "asc"),
            OrderBy::AscNullsFirst(field) => (field, "asc_nulls_first"),
            OrderBy::AscNullsLast(field) => (field, "asc_nulls_last"),
            OrderBy::Desc(field) => (field, "desc"),
            OrderBy::DescNullsFirst(field) => (field, "desc_nulls_first"),
            OrderBy::DescNullsLast(field) => (field, "desc_nulls_last"),
        };
        let mut out = field.to_string();
        out.append(": ");
        out.append(direction);
        out
    }
}

impl Clone for OrderBy {
    fn clone(&self) -> (out: OrderBy)
        ensures
            out.field()@ == self.field()@,
            out.direction() == self.direction(),
    {
        match self {
            OrderBy::Asc(field) => OrderBy::Asc(field.clone()),
            OrderBy::AscNullsFirst(field) => OrderBy::AscNullsFirst(field.clone()),
            OrderBy::AscNullsLast(field) => OrderBy::AscNullsLast(field.clone()),
            OrderBy::Desc(field) => OrderBy::Desc(field.clone()),
            OrderBy::DescNullsFirst(field) => OrderBy::DescNullsFirst(field.clone()),
            OrderBy::DescNullsLast(field) => OrderBy::DescNullsLast(field.clone()),
        }
    }
}

impl Render for OrderBy {
    open spec fn text(&self) -> Seq<char> {
        self.order_text()
    }

    fn render(&self) -> (out: String) {
        self.to_string()
    }
}

} // verus!
