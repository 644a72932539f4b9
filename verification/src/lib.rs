//! Verified core of a vector store: the bookkeeping behind GPU and OpenSearch
//! backed indexes, the statements sent to the database, and the settings the
//! service starts with.

pub mod config;
pub mod cuvs;
pub mod db_index;
pub mod fts;
pub mod opensearch;
pub mod text;
pub mod types;
