//! Rewrites JavaScript and TypeScript modules for a dependency-injection
//! runtime: constructor parameters become a `@depends(..)` decorator, the
//! runtime's helpers are imported, and decorated classes are wrapped in a
//! call that applies their decorators.
pub mod oxc_types;
pub mod seqs;
pub mod text;
pub mod model;
pub mod dependencies;
pub mod polyfill;
pub mod utils;
pub mod decorators;
pub mod convert;
pub mod transformer;
pub mod laws;
