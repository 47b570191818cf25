//! Lints that run once per item of the current unit.

pub mod not_using_prelude;
