//! The eight operations that every table offers.

pub mod delete;
pub mod delete_by_pk;
pub mod insert;
pub mod insert_one;
pub mod query;
pub mod query_by_pk;
pub mod update;
pub mod update_by_pk;
