//! Cursor-sensitive extraction of an in-progress reference query from a
//! single line of text.
//!
//! Given a line and a character offset, the library decides whether the
//! offset sits inside an inline reference (wiki `[[..]]` or markdown
//! `[display](..)`, closed or still being typed), and if so hands back the
//! typed query, the character span of the reference, and the syntax used.

pub mod grammar;
pub mod matcher;
pub mod parser;
pub mod query;
