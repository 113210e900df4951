//! Retrieval-augmented answering over ingested documents: the decisions of the
//! ingestion and query pipelines, stated with contracts and proved.
//!
//! The network calls themselves (model service, vector store) are made by the
//! program around this library; it hands their outcomes in as plain values.
pub mod chunker;
pub mod error;
pub mod handlers;
pub mod model;
pub mod processor;
pub mod store_model;
pub mod style;
pub mod utils;
pub mod vector_db;
