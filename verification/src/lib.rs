//! Prelude-import analysis and use-stack rendering over a plain model of a
//! resolved program.

pub mod ctxt;
pub mod diagnostic;
pub mod hir_lints;
pub mod instance;
pub mod program;
pub mod span;
pub mod text;
