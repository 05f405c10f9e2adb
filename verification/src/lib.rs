//! A storage-error translation layer: a closed taxonomy of storage-layer
//! failure kinds, total conversions into it from each upstream error family,
//! and a boundary re-export into the caller's domain error type that keeps the
//! full formatted cause chain.

pub mod domain;
pub mod error;
pub mod upstream;

pub use domain::ChainStorageError;
pub use error::PostgresError;

