//! Line search over a block of text: the lines that hold a query, in their
//! original order, matched exactly or with ASCII letters folded to lower case.
pub mod config;
pub mod laws;
pub mod search;
pub mod text;

pub use config::{Config, MISSING_FILENAME, MISSING_QUERY};
pub use search::{search, search_case_sensitive};
