//! An in-memory store of blog posts: lookup by friendly URL, insertion with
//! auto-incrementing identifiers, and deletion by identifier.

pub mod clock;
pub mod blog;

pub use blog::{Blog, BlogCategory, BlogEntry};
