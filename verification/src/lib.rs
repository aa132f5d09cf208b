//! Species-statistics storage core: a time-sortable 160-bit row identifier
//! with a fixed-length base62 text form and a fixed-width byte form for the
//! database column, the pure transform from raw tabular records to fully
//! typed storage rows, and the compute side of the insert/lookup pipeline.

pub mod base62;
pub mod error;
pub mod handler;
pub mod id;
pub mod persist;
pub mod record;
pub mod transform;
