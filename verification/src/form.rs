//! The interactive form controller: selection tabs over a form buffer and
//! the layout routine that writes a form into buffer rows.

pub mod fill;
pub mod row_col;
pub mod tabs;
