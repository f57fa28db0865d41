//! Self-validating value types shared by every schema version.

pub mod grammar;
pub mod normalized_string;
pub mod spdx;
pub mod uri;
