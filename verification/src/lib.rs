//! Generation of test suites that compare Rust foreign-interface definitions with C headers.
pub mod call_laws;
pub mod error;
pub mod generation;
pub mod generator;
pub mod items;
pub mod laws;
pub mod naming;
pub mod outside;
pub mod rule_laws;
pub mod rules;
pub mod run_laws;
pub mod settings_laws;
pub mod skipping;

pub use error::GenerationError;
pub use generation::{Action, Event, Generation, Stage, TestSide};
pub use generator::TestGenerator;
pub use items::{
    Const, FfiItem, FfiItems, Field, Fn, ItemKind, MapInput, Parameter, Static, Struct, Type,
    VolatileItemKind,
};
