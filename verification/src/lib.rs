//! Archival pipeline for a creator's posts on the fanbox platform.
//!
//! The library holds the verified core: the content model for the remote
//! schema, the parser that interprets the polymorphic JSON shapes, the
//! renderer that turns a parsed post into an ordered plan of downloads and
//! HTML fragments, the pagination walker, and the error taxonomy. Network
//! and filesystem work is left to the surrounding application, which drives
//! these functions and performs the actions they plan.

pub mod client;
pub mod error;
pub mod json;
pub mod model;
pub mod pagination;
pub mod parse;
pub mod render;
mod util;
