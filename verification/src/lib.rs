//! The `useReadonlyClassProperties` lint rule for TypeScript classes, and the
//! decisions of linting one file.
//!
//! - `syntax`: the part of a class's syntax tree that the rule reads, as plain values.
//! - `options`: the rule's options.
//! - `names`: the names and ranges by which properties are reported.
//! - `eligibility`: which properties the rule checks.
//! - `name_set`: the set of assigned names, an `FxHashSet` of `rustc_hash`.
//! - `walk`: the walk over the class that finds properties assigned outside the constructor.
//! - `fix`: marking a property `readonly`.
//! - `rule`: the rule's run, diagnostic and code action.
//! - `laws`: what holds of the rule on every class.
//! - `process_file`: checking a file's size, fixing it, pulling and reporting its diagnostics.

pub mod options;
pub mod syntax;
pub mod name_set;
pub mod names;
pub mod eligibility;
pub mod walk;
pub mod fix;
pub mod rule;
pub mod laws;
pub mod process_file;
