//! Data models of the completion API: messages, models, tool calls, usage
//! accounting, and the form descriptions that drive the interactive editor
//! forms.

pub mod completion;
pub mod message;
pub mod stream;
pub mod tools;
