//! Zero-copy interchange of columnar arrays between a native engine and a host
//! runtime: logical types and their format strings, the two descriptor
//! structures, export and import, chunk normalisation and the release protocol.

pub mod array;
pub mod bridge;
pub mod buffer;
pub mod builder;
pub mod descriptor;
pub mod error;
pub mod export;
pub mod header;
pub mod import;
pub mod laws;
pub mod query;
pub mod release;
pub mod series;
pub mod types;
