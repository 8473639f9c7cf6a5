pub mod batch;
pub mod config;
pub mod ingest;
