//! Ingestion pipeline for a municipal parking-garage open-data feed.
//!
//! The library normalizes loosely-typed external records into validated
//! domain records and models the two persistence policies the pipeline
//! relies on: merge-on-conflict for slowly-changing garage metadata and
//! insert-or-ignore for the append-only occupancy time series. Schema
//! provisioning for the two tables is described by verified table
//! descriptors. All I/O (HTTP fetch, database connections, statement
//! execution) lives outside the library.

pub mod garage_id;
pub mod laws;
pub mod pipeline;
pub mod record;
pub mod schema;
pub mod store;
pub mod timestamp;
pub mod transform;
