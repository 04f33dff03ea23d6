//! Types shared by the filter pipeline: the piece of text that the fuzzy
//! matcher looks at, and the scope of a match.

pub mod source_item;
