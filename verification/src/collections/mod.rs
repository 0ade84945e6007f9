//! The listings of a database.
pub mod bookmarks;
pub mod entries;
pub mod functions;
pub mod names;
pub mod segments;
pub mod strings;
pub mod xrefs;
