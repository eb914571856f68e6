//! Validation, point extraction and access control for a nearest-point index
//! over three-dimensional points read from a caller-owned array of records.

pub mod guard;
pub mod points;
pub mod query;
pub mod range;
