//! The record kept of one audio file, and how it is made from the tags
//! that were read from the file.

use vstd::prelude::*;
use crate::paths::{filename_of, filename_spec};
use crate::text::{copy_opt, opt_view};

verus! {

/// What is known of one audio file.
///
/// `duration_bits` holds the length of the track in seconds as the bit
/// pattern of a 64-bit IEEE 754 number; the library only carries it.
#[derive(Clone, Debug, PartialEq, Eq)]
pub struct AudioMetadata {
    pub path: String,
    pub filename: String,
    pub title: Option<String>,
    pub artist: Option<String>,
    pub genre: Option<String>,
    pub mood: Option<String>,
    pub energy: Option<String>,
    pub bpm: Option<u32>,
    pub duration_bits: Option<u64>,
    /// A category chosen by the caller, which goes before a derived one.
    pub category_override: Option<String>,
}

/// An `AudioMetadata` as plain values.
pub struct MetadataView {
    pub path: Seq<char>,
    pub filename: Seq<char>,
    pub title: Option<Seq<char>>,
    pub artist: Option<Seq<char>>,
    pub genre: Option<Seq<char>>,
    pub mood: Option<Seq<char>>,
    pub energy: Option<Seq<char>>,
    pub bpm: Option<u32>,
    pub duration_bits: Option<u64>,
    pub category_override: Option<Seq<char>>,
}

impl View for AudioMetadata {
    type V = MetadataView;

    open spec fn view(&self) -> MetadataView {
        MetadataView {
            path: self.path@,
            filename: self.filename@,
            title: opt_view(self.title),
            artist: opt_view(self.artist),
            genre: opt_view(self.genre),
            mood: opt_view(self.mood),
            energy: opt_view(self.energy),
            bpm: self.bpm,
            duration_bits: self.duration_bits,
            category_override: opt_view(self.category_override),
        }
    }
}

/// The view of a record that may be missing.
pub open spec fn metadata_opt_view(o: Option<AudioMetadata>) -> Option<MetadataView> {
    match o {
        Some(metadata) => Some(metadata@),
        None => None,
    }
}

/// The views of a run of records.
pub open spec fn file_views(files: Seq<AudioMetadata>) -> Seq<MetadataView> {
    Seq::new(files.len(), |i: int| files[i]@)
}

impl MetadataView {
    /// Whether the file name is the one that belongs to the path.
    pub open spec fn consistent(self) -> bool {
        self.filename == filename_spec(self.path)
    }
}

/// The record of a file of which nothing but its path is known.
pub open spec fn placeholder_spec(path: Seq<char>) -> MetadataView {
    MetadataView {
        path,
        filename: filename_spec(path),
        title: None,
        artist: None,
        genre: None,
        mood: None,
        energy: None,
        bpm: None,
        duration_bits: None,
        category_override: None,
    }
}

impl AudioMetadata {
    /// The record of a file whose tags could not be read: path and file
    /// name, and nothing else.
    pub fn placeholder(path: &str) -> (r: AudioMetadata)
        ensures
            r@ == placeholder_spec(path@),
            r@.consistent(),
    {
        AudioMetadata {
            path: path.to_owned(),
            filename: filename_of(path),
            title: None,
            artist: None,
            genre: None,
            mood: None,
            energy: None,
            bpm: None,
            duration_bits: None,
            category_override: None,
        }
    }

    /// A copy of the record.
    pub fn duplicate(&self) -> (r: AudioMetadata)
        ensures
            r == *self,
    {
        AudioMetadata {
            path: self.path.clone(),
            filename: self.filename.clone(),
            title: copy_opt(&self.title),
            artist: copy_opt(&self.artist),
            genre: copy_opt(&self.genre),
            mood: copy_opt(&self.mood),
            energy: copy_opt(&self.energy),
            bpm: self.bpm,
            duration_bits: self.duration_bits,
            category_override: copy_opt(&self.category_override),
        }
    }
}

} // verus!
