//! A verified core for a syndication-feed reader.
//!
//! The heart of the crate is a streaming RSS parser: a single-pass,
//! stack-based interpreter over XML parsing events that validates the
//! nesting of the recognized elements and accumulates completed feed
//! items.  Tokenizing the document text and parsing timestamps are
//! delegated to outside crates behind trusted declarations; everything
//! that makes a decision is specified and proved here.

pub mod context;
pub mod event;
pub mod http;
pub mod item;
pub mod laws;
pub mod notifier;
pub mod parser;
pub mod text;
pub mod timestamp;
