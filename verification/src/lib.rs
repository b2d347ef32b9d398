//! A read-only corpus of religious text: a fixed count of chapters, each an
//! ordered list of numbered verses, available in two language variants.
//!
//! The corpus is handed in as one serialized document per language; loading
//! parses it, checks its shape, and builds an immutable chapter/verse tree.
//! Random selection picks a chapter, or a verse within a chapter, uniformly.

pub mod corpus;
pub mod language;
pub mod resource;

pub use corpus::{Chapter, CorpusError, Quran, Verse, CHAPTER_COUNT};
pub use language::Language;
