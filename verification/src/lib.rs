//! Helpers for working with `cap-std` directory handles: building a
//! `DirBuilder` for a permission mode, and splitting a path into the
//! directory to open and the name to look up in it.

pub mod builder;
pub mod path;
pub mod split;
