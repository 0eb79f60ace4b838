//! Lowering of TypeScript-only surface syntax to plain JavaScript, over an
//! already-parsed, already-scope-resolved program tree.
//!
//! The tree and the scope/symbol table are modelled as plain owned values; the
//! four transforms (import-equals lowering, enum lowering, merged-export
//! deduplication, type-only import/export elision) are verified against spec
//! functions over mathematical views of those values.

pub mod ast;
pub mod model;
pub mod ident;
pub mod sem;
pub mod transformer;
pub mod import_equals;
pub mod enum_lower;
pub mod elide;
