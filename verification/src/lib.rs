//! Ingestion pipeline for an artist catalog: validated catalog rows are
//! turned into artist aggregates, each owning the image variant groups
//! derived from the artist's source images, and the batch is committed
//! into a primary-key store all at once or not at all.

pub mod error;
pub mod record;
pub mod years;
pub mod naming;
pub mod model;
mod ids;
pub mod variants;
pub mod builder;
pub mod store;
pub mod ingest;
