//! Verified core of a TypeScript SDK for IDA Pro databases.
pub mod address;
pub mod collections;
pub mod comment;
pub mod database;
pub mod error;
pub mod session;
pub mod text;
pub mod types;
