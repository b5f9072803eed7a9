//! A format-preserving editor for INI-style text: every line that an
//! operation does not target keeps its exact characters.
//!
//! A document is read line by line. Each line is a section header, an entry,
//! a comment, or none of these, and keeps its text part by part, so that
//! writing it out gives the text that was read.
//!
//! - `model` holds the mathematical model of lines and documents, `grammar`
//!   says what a line of text is, and `document` says what each operation
//!   makes of a document.
//! - `content`, `line` and `file` hold the executable types, whose contracts
//!   speak of that model; `scanner` is the state machine that reads a line,
//!   and `quote` decodes quoted values.
//! - `theorems` proves what holds of every document.

pub mod content;
pub mod document;
pub mod file;
pub mod grammar;
pub mod line;
pub mod model;
pub mod quote;
pub mod scanner;
pub mod text;
pub mod theorems;

pub use content::{IniComment, IniContent, IniEntry, IniOther, IniSection};
pub use file::{IniFile, IniFileIntoIterator};
pub use line::IniLine;
