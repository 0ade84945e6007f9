//! The values the SDK hands out.
pub mod bookmark;
pub mod decompiler;
pub mod function;
pub mod instruction;
pub mod metadata;
pub mod name;
pub mod plugin;
pub mod segment;
pub mod string_entry;
pub mod xref;
