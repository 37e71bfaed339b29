//! A small document model for building `robots.txt` files: directives are
//! grouped under user agents, agents are collected into a document with an
//! optional sitemap, and the document renders to its textual form.

pub mod agent;
pub mod directive;
pub mod error;
pub mod robots;
