pub mod error;
pub mod format_string;
