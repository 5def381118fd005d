//! Fetch-side ingestion core for a public chess service: month parsing
//! and date-range filtering of per-player archive indexes, aggregation of
//! monthly game lists into one flat collection, and projection of the
//! decoded records onto fixed columnar schemas. The HTTP transport and
//! the Arrow encoding of the projected batches live outside the library.

pub mod archives;
pub mod decode;
pub mod errors;
pub mod games;
pub mod ingestors;
pub mod json;
pub mod months;
pub mod profiles;
pub mod projection;
pub mod schema;
