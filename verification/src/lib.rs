//! A verified library for CycloneDX bills of materials.
//!
//! A document is built once in the version-agnostic model of [`models`],
//! from the validated primitives of [`external_models`]. To write it, the
//! adapter of a schema version shapes it as that version lays documents out
//! ([`specs`]), and the shape is written as JSON ([`json`]) or as XML
//! ([`xml`]).
//!
//! Every function states what it returns over the mathematical value of its
//! arguments, and Verus proves that it does. The laws of the library are
//! proof functions beside the functions they speak of: normalizing leaves
//! no forbidden white space, a document comes back from its shape as it
//! was, a part that is absent is never written, and the same document is
//! always written as the same text.
//!
//! What the library has from other crates stands behind five small
//! functions whose contracts are believed, not proved: the report of the
//! `validator` crate for a failed field, the answer of `license_exprs` for a
//! license expression, the base64 text of the `base64` crate, the random
//! bytes of the `uuid` crate, and `String::push`.

pub mod cli;
pub mod errors;
pub mod external_models;
pub mod json;
pub mod models;
pub mod specs;
pub mod text;
pub mod xml;
