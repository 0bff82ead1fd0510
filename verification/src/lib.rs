//! Sorting of audio files into category folders, with the rules of the
//! metadata cache that spares unchanged files a second tag read.
//!
//! Nothing here touches a file or a database. Where disk or store have a
//! say, the library tells what it needs to know, the caller finds out, and
//! the library decides.

pub mod cache;
pub mod category;
pub mod duplicates;
pub mod engine;
pub mod metadata;
pub mod names;
pub mod numbers;
pub mod paths;
pub mod preview;
pub mod report;
pub mod scan;
pub mod tags;
pub mod telemetry;
pub mod text;

pub use crate::duplicates::{DuplicateInfo, SourceDuplicateFile, SourceDuplicateGroup};
pub use crate::metadata::AudioMetadata;
pub use crate::report::OrganizeResult;
