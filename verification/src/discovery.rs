//! Step discovery: the catalog of known steps, search over it, the
//! matcher registry built from it, and the exportable schema.

pub mod catalog;
pub mod registry;
pub mod schema;
pub mod search;
