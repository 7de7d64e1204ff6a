//! An in-memory to-do list: an ordered store of items with sequentially
//! assigned identifiers, and the submission rule that ignores blank input.

pub mod store;
pub mod text;
