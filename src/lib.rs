//! Link discovery between notes: finds whole-word, literal occurrences of the
//! titles and aliases of candidate notes inside the content of one note.

pub mod link_match;
pub mod link_matcher;
pub mod link_matching_result;
pub mod note;
pub mod range;
pub mod regex_engine;
pub mod replacement;
