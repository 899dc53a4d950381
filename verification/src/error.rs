//! What can go wrong with a response.

use vstd::prelude::*;

verus! {

/// One error that the backend reports.
#[derive(Debug)]
pub struct GraphqlError {
    pub extensions: serde_json::Value,
    pub message: String,
}

/// Why a response could not be read.
#[derive(Debug)]
pub enum FetchError {
    /// The body is no JSON, or none of the three envelopes.
    Serde(serde_json::Error),
    /// The backend reports errors: all of them.
    Hasura(Vec<GraphqlError>),
    /// The backend does not know the endpoint.
    NotFound { code: String, path: String },
    /// The response has no result under the name of an operation.
    Empty,
}

/// What an error of the backend says.
pub struct GraphqlErrorView {
    pub extensions: serde_json::Value,
    pub message: Seq<char>,
}

/// What an error says.
pub enum FetchErrorView {
    Serde(serde_json::Error),
    Hasura(Seq<GraphqlErrorView>),
    NotFound { code: Seq<char>, path: Seq<char> },
    Empty,
}

impl View for GraphqlError {
    type V = GraphqlErrorView;

    open spec fn view(&self) -> GraphqlErrorView {
        GraphqlErrorView { extensions: self.extensions, message: self.message@ }
    }
}

impl View for FetchError {
    type V = FetchErrorView;

    open spec fn view(&self) -> FetchErrorView {
        match self {
            FetchError::Serde(error) => FetchErrorView::Serde(*error),
            FetchError::Hasura(errors) => FetchErrorView::Hasura(errors@.map_values(|e: GraphqlError| e@)),
            FetchError::NotFound { code, path } => FetchErrorView::NotFound { code: code@, path: path@ },
            FetchError::Empty => FetchErrorView::Empty,
        }
    }
}

} // verus!
