//! A namespaced-annotation discovery engine.
//!
//! A compiler front end hands over the top-level declarations of a
//! type-checked program, each carrying zero or more namespaced annotations
//! (`toolname::marker(args...)`) together with a lookup from a declaration's
//! identity to its resolved type.  The library scans those declarations for
//! the ones marked with a registered tool namespace, decodes the annotation's
//! argument tokens, and assembles one report row per match: the annotation's
//! full path, the declaration's name, its resolved type, and the decoded
//! arguments.
//!
//! The scan is a single read-only pass: rows come out in declaration order,
//! and only the first matching annotation on a declaration is reported.

pub mod decoder;
pub mod matcher;
pub mod report;
pub mod sample;
pub mod scanner;
pub mod syntax;
