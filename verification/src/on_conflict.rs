//! What an insert does with a row that is already there.

use vstd::prelude::*;
use crate::serializer::{to_string, Literal};
use crate::traits::Render;

verus! {

/// The conflict clause of an insert: an input value like any other, which
/// the caller puts together.
#[derive(Debug)]
pub struct OnConflict {
    pub clause: Literal,
}

impl OnConflict {
    /// The text of the clause: that of its literal, a struct between braces.
    pub open spec fn clause_text(self) -> Seq<char> {
        self.clause.rendered(true)
    }

    /// The conflict clause `clause`.
    pub fn new(clause: Literal) -> (out: OnConflict)
        ensures
            out.clause == clause,
    {
        OnConflict { clause }
    }

    /// The text of the clause.
    pub fn to_string(&self) -> (out: String)
        ensures
            out@ == self.clause_text(),
    {
        to_string(&self.clause, true)
    }
}

impl Render for OnConflict {
    open spec fn text(&self) -> Seq<char> {
        self.clause_text()
    }

    fn render(&self) -> (out: String) {
        self.to_string()
    }
}

} // verus!
