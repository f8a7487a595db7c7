//! Replace every match of a literal or of a regular expression in a text, and
//! merge the runs of the replacement that this leaves behind.

pub mod engine;
pub mod pattern;
pub mod replace;
pub mod text;

pub use pattern::Pattern;
pub use replace::{replace_and_merge, string_replace_all, substitute, StringReplaceAll};
pub use text::replace_literal;
