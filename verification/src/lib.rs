//! A CLI coding-tutor core: recovery of structured lesson content from
//! unreliable model output, deterministic fallback synthesis, and the
//! pure judging logic of the exercise verification pipeline.
//!
//! All text handled by the engine is kept as UTF-8 bytes (`Vec<u8>`),
//! so that the scanning and repair logic can be specified over `Seq<u8>`.

pub mod config;
pub mod content;
pub mod curriculum;
pub mod decode;
pub mod executor;
pub mod human_lessons;
pub mod json_doc;
pub mod journey;
pub mod lesson;
pub mod menu;
pub mod recovery;
pub mod ruleset;
pub mod runners;
pub mod scan;
pub mod synthesis;
pub mod tracker;
pub mod text;
