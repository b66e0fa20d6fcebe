//! The execution pipeline: the result model, the comparison engine, the
//! batch executor, the performance monitor, and the report writers.

pub mod alerts;
pub mod batch;
pub mod tap_output;
pub mod text_output;
pub mod webhook;
pub mod comparison;
pub mod debug;
pub mod profiling;
pub mod result;
