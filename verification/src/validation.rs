//! Feature-file validation: structural checks on the text and step
//! checks against the pattern catalog.

pub mod errors;
pub mod feature;
pub mod report;
pub mod step;
