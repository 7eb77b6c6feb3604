//! Typed filesystem paths: lexical path algebra, and path kinds that record
//! what was observed of the filesystem when they were made.

pub mod component;
pub mod lexical;
pub mod clean;
pub mod arc;
pub mod error;
pub mod resolve;
pub mod abs;
pub mod file;
pub mod dir;
pub mod entry;
pub mod symlink;
pub mod ty;
pub mod order;
pub mod discover;
pub mod laws;
