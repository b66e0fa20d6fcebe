//! A BDD-style test execution and analysis engine: an ordered step-pattern
//! catalog and matcher, a hierarchical result model with rollup summaries,
//! a batch runner with partial-failure aggregation, a comparison engine for
//! regression and improvement detection, and a performance alert evaluator.

pub mod clock;
pub mod converter;
pub mod kvstore;
pub mod rational;
pub mod text;
pub mod validation;
pub mod cli;
pub mod discovery;
pub mod execution;
