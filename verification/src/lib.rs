//! Verified core of a Neovim assistant plugin.
//!
//! The heart of the crate is a grammar-aware merge engine: it parses a
//! fragment of source code and a destination buffer, locates for every
//! declaration of the fragment the semantically equivalent declaration of
//! the destination (by nesting path, not by line position), and splices the
//! fragment's bytes into the destination, replacing, inserting into an
//! enclosing scope, or appending at the end of the buffer.
//!
//! Around the engine stand the plugin's data models: rows, columns and
//! ranges of an editor buffer, interactive form layouts, chat transcripts
//! parsed from tagged buffer lines, and the message types exchanged with a
//! completion API. All of it is plain logic over plain values, verified;
//! the editor and network plumbing live outside this crate.

pub mod buffer;
pub mod buffer_modifier;
pub mod chat;
pub mod cursor;
pub mod form;
pub mod group;
pub mod langs;
pub mod logger;
pub mod messages;
pub mod mistral;
pub mod notify;
pub mod parser;
pub mod text;
pub mod tool_id;
pub mod tool_mode;
pub mod ts;

pub use tool_id::{tool_id_to_usize, usize_to_tool_id};

