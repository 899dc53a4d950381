//! What the parts of a document have in common.

use vstd::prelude::*;

verus! {

/// A value with a text in a document.
pub trait Render {
    /// The text of the value.
    spec fn text(&self) -> Seq<char>;

    /// The text of the value.
    fn render(&self) -> (out: String)
        ensures
            out@ == self.text(),
    ;
}

/// A value that may hold nothing.
pub trait IsEmpty {
    /// Whether the value holds nothing.
    spec fn holds_nothing(&self) -> bool;

    /// Whether the value holds nothing.
    fn is_empty(&self) -> (out: bool)
        ensures
            out == self.holds_nothing(),
    ;
}

/// An operation that reads rows.
pub trait Queryable: Render {
    /// The name of the operation: the head of its text, and the key of its
    /// result in a response.
    spec fn name_text(&self) -> Seq<char>;

    /// The name of the operation.
    fn name(&self) -> (out: String)
        ensures
            out@ == self.name_text(),
    ;
}

/// An operation that changes rows.
pub trait Mutation: Render {
    /// The name of the operation: the head of its text, and the key of its
    /// result in a response.
    spec fn name_text(&self) -> Seq<char>;

    /// Whether the rows of the result stand one level down, under
    /// `returning`.
    spec fn is_explicit(&self) -> bool;

    /// The name of the operation.
    fn name(&self) -> (out: String)
        ensures
            out@ == self.name_text(),
    ;

    /// Whether the rows of the result stand one level down, under
    /// `returning`.
    fn explicit(&self) -> (out: bool)
        ensures
            out == self.is_explicit(),
    ;
}

} // verus!
