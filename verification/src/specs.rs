//! The schema versions that documents are written in, one module each.

pub mod v1_3;
