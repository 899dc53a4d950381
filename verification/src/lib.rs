//! A typed document builder for the Hasura GraphQL convention: every table
//! offers the same eight root operations, and this library renders a
//! description of one of them into the exact operation text, and picks the
//! keyed results out of the response.

pub mod attributes;
pub mod builder;
pub mod conditions;
pub mod entity;
pub mod error;
pub mod fetcher;
pub mod fields;
pub mod json;
pub mod on_conflict;
pub mod order_by;
pub mod queries;
pub mod segments;
pub mod serializer;
pub mod text;
pub mod traits;
pub mod util;

pub use attributes::{Attribute, Attributes, Entry};
pub use builder::{Braced, Builder, Flattened, Maybe, Separalized, Separated, Serialized};
pub use conditions::{Condition, Conditions, Operator};
pub use entity::{Column, Entity, Scalar};
pub use error::{FetchError, GraphqlError};
pub use fetcher::{Fetcher, Response, Target, Wrapper};
pub use fields::{Field, Fields};
pub use on_conflict::OnConflict;
pub use order_by::OrderBy;
pub use queries::delete::Delete;
pub use queries::delete_by_pk::DeleteByPk;
pub use queries::insert::Insert;
pub use queries::insert_one::InsertOne;
pub use queries::query::Query;
pub use queries::query_by_pk::QueryByPk;
pub use queries::update::Update;
pub use queries::update_by_pk::UpdateByPk;
pub use segments::{mutation1, mutation2, mutation3, query1, query2, query3};
pub use serializer::{to_string, Literal, Member};
pub use traits::{IsEmpty, Mutation, Queryable, Render};
pub use util::construct_query;
