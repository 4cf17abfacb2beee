//! Verified building blocks of a git implementation: tree entry modes and their order,
//! pack fan-out checks, tag serialization, and the decisions taken while a repository is opened.
pub mod bytes;
pub mod hash;
pub mod open;
pub mod tag;
pub mod tree;
pub mod verify;
