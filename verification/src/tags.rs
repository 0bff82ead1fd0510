//! From the tags of an audio file to its record: which of the places in
//! which a mood may be found wins, and what a file that cannot be read is
//! told to the user.
//!
//! The tags are read by the caller; here they are plain texts.

use vstd::prelude::*;
use vstd::utf8::encode_utf8;
use crate::metadata::{AudioMetadata, MetadataView};
use crate::numbers::{parse_u32, parse_u32_spec};
use crate::paths::{filename_of, filename_spec};
use crate::report::lemma_holds_part;
use crate::text::{
    contains_char, contains_seq, contains_text, copy_opt, lowercase_of, opt_view, to_lowercase,
};
use vstd::string::{StringExecFns, StringSliceAdditionalSpecFns};

verus! {

/// The three fields that every kind of tag has.
#[derive(Clone, Debug, PartialEq, Eq)]
pub struct BasicTags {
    pub title: Option<String>,
    pub artist: Option<String>,
    pub genre: Option<String>,
}

/// One item of an ID3v2 tag: the name of its frame, where it has one, and
/// its value, where that is a text.
#[derive(Clone, Debug, PartialEq, Eq)]
pub struct TagText {
    pub key: Option<String>,
    pub text: Option<String>,
}

/// What is read of an ID3v2 tag. Each field but `basic` and `items` is the
/// text of the item of that kind, where the tag has one with a text.
#[derive(Clone, Debug, PartialEq, Eq)]
pub struct Id3Tags {
    pub basic: BasicTags,
    pub content_group: Option<String>,
    pub mood: Option<String>,
    pub comment: Option<String>,
    pub initial_key: Option<String>,
    pub subtitle: Option<String>,
    pub bpm: Option<String>,
    /// All the items of the tag, in their order.
    pub items: Vec<TagText>,
}

/// What is read of an audio file.
#[derive(Clone, Debug, PartialEq, Eq)]
pub struct TagSnapshot {
    /// The length of the track in seconds, as the bits of a 64-bit
    /// IEEE 754 number.
    pub duration_bits: u64,
    /// The ID3v2 tag, if the file has one.
    pub id3v2: Option<Id3Tags>,
    /// The tag of the kind that is usual for the file's format, if the file
    /// has one.
    pub primary: Option<BasicTags>,
    /// The first tag of the file, if it has any.
    pub first: Option<BasicTags>,
}

/// Why a file could not be read.
#[derive(Clone, Debug, PartialEq, Eq)]
pub enum ReadFailure {
    /// The file could not be opened; the text is the system's.
    Open(String),
    /// The file was opened, and its contents made no sense as audio.
    Decode(String),
}

pub struct BasicView {
    pub title: Option<Seq<char>>,
    pub artist: Option<Seq<char>>,
    pub genre: Option<Seq<char>>,
}

pub struct TagTextView {
    pub key: Option<Seq<char>>,
    pub text: Option<Seq<char>>,
}

pub struct Id3View {
    pub basic: BasicView,
    pub content_group: Option<Seq<char>>,
    pub mood: Option<Seq<char>>,
    pub comment: Option<Seq<char>>,
    pub initial_key: Option<Seq<char>>,
    pub subtitle: Option<Seq<char>>,
    pub bpm: Option<Seq<char>>,
    pub items: Seq<TagTextView>,
}

pub struct SnapshotView {
    pub duration_bits: u64,
    pub id3v2: Option<Id3View>,
    pub primary: Option<BasicView>,
    pub first: Option<BasicView>,
}

pub enum ReadFailureView {
    Open(Seq<char>),
    Decode(Seq<char>),
}

impl View for BasicTags {
    type V = BasicView;

    open spec fn view(&self) -> BasicView {
        BasicView {
            title: opt_view(self.title),
            artist: opt_view(self.artist),
            genre: opt_view(self.genre),
        }
    }
}

impl View for TagText {
    type V = TagTextView;

    open spec fn view(&self) -> TagTextView {
        TagTextView { key: opt_view(self.key), text: opt_view(self.text) }
    }
}

/// The views of the items of a tag.
pub open spec fn item_views(items: Seq<TagText>) -> Seq<TagTextView> {
    Seq::new(items.len(), |i: int| items[i]@)
}

/// The view of a tag that may be missing.
pub open spec fn basic_opt_view(o: Option<BasicTags>) -> Option<BasicView> {
    match o {
        Some(tags) => Some(tags@),
        None => None,
    }
}

impl View for Id3Tags {
    type V = Id3View;

    open spec fn view(&self) -> Id3View {
        Id3View {
            basic: self.basic@,
            content_group: opt_view(self.content_group),
            mood: opt_view(self.mood),
            comment: opt_view(self.comment),
            initial_key: opt_view(self.initial_key),
            subtitle: opt_view(self.subtitle),
            bpm: opt_view(self.bpm),
            items: item_views(self.items@),
        }
    }
}

impl View for TagSnapshot {
    type V = SnapshotView;

    open spec fn view(&self) -> SnapshotView {
        SnapshotView {
            duration_bits: self.duration_bits,
            id3v2: match self.id3v2 {
                Some(tags) => Some(tags@),
                None => None,
            },
            primary: basic_opt_view(self.primary),
            first: basic_opt_view(self.first),
        }
    }
}

impl View for ReadFailure {
    type V = ReadFailureView;

    open spec fn view(&self) -> ReadFailureView {
        match self {
            ReadFailure::Open(detail) => ReadFailureView::Open(detail@),
            ReadFailure::Decode(detail) => ReadFailureView::Decode(detail@),
        }
    }
}

/// Whether a comment looks like a mood: it takes less than 50 bytes and
/// holds no full stop.
pub open spec fn comment_is_mood(comment: Seq<char>) -> bool {
    encode_utf8(comment).len() < 50 && !comment.contains('.')
}

/// Whether the name of a frame tells of a mood: in lower case it holds
/// `mood`, `style` or `vibe`.
pub open spec fn names_mood(key: Seq<char>) -> bool {
    let lower = lowercase_of(key);
    contains_seq(lower, "mood"@) || contains_seq(lower, "style"@) || contains_seq(lower, "vibe"@)
}

/// Whether an item gives a mood: its frame's name tells of one and its
/// value is a text.
pub open spec fn gives_mood(item: TagTextView) -> bool {
    item.text is Some && match item.key {
        Some(key) => names_mood(key),
        None => false,
    }
}

/// The text of the first item that gives a mood.
pub open spec fn custom_mood(items: Seq<TagTextView>) -> Option<Seq<char>>
    decreases items.len(),
{
    if items.len() == 0 {
        None
    } else if gives_mood(items[0]) {
        items[0].text
    } else {
        custom_mood(items.drop_first())
    }
}

/// Whether the text in the place of the musical key is a mood and no key:
/// it holds neither `#` nor `m` and takes more than 3 bytes.
pub open spec fn key_is_mood(text: Seq<char>) -> bool {
    !text.contains('#') && !text.contains('m') && encode_utf8(text).len() > 3
}

/// The mood of an ID3v2 tag. The places are asked in this order, and the
/// first that answers wins: the content group, the mood frame, a comment
/// that looks like a mood, the first item whose frame's name tells of a
/// mood, and the place of the musical key where what it holds is no key.
pub open spec fn mood_spec(tags: Id3View) -> Option<Seq<char>> {
    if tags.content_group is Some {
        tags.content_group
    } else if tags.mood is Some {
        tags.mood
    } else if tags.comment is Some && comment_is_mood(tags.comment.unwrap()) {
        tags.comment
    } else if custom_mood(tags.items) is Some {
        custom_mood(tags.items)
    } else if tags.initial_key is Some && key_is_mood(tags.initial_key.unwrap()) {
        tags.initial_key
    } else {
        None
    }
}

/// The tempo of an ID3v2 tag: the number that its tempo frame spells.
pub open spec fn bpm_spec(tags: Id3View) -> Option<u32> {
    match tags.bpm {
        Some(text) => parse_u32_spec(text),
        None => None,
    }
}

/// The record of a file by all that its tags tell: by the ID3v2 tag where
/// there is one, and else by the three fields of the usual tag.
pub open spec fn full_metadata_spec(path: Seq<char>, tags: SnapshotView) -> MetadataView {
    let basic = match tags.id3v2 {
        Some(id3) => Some(id3.basic),
        None => tags.primary,
    };
    MetadataView {
        path,
        filename: filename_spec(path),
        title: match basic {
            Some(b) => b.title,
            None => None,
        },
        artist: match basic {
            Some(b) => b.artist,
            None => None,
        },
        genre: match basic {
            Some(b) => b.genre,
            None => None,
        },
        mood: match tags.id3v2 {
            Some(id3) => mood_spec(id3),
            None => None,
        },
        energy: match tags.id3v2 {
            Some(id3) => id3.subtitle,
            None => None,
        },
        bpm: match tags.id3v2 {
            Some(id3) => bpm_spec(id3),
            None => None,
        },
        duration_bits: Some(tags.duration_bits),
        category_override: None,
    }
}

/// The record of a file by the three fields of its usual tag, or of its
/// first tag where it has no usual one.
pub open spec fn basic_metadata_spec(path: Seq<char>, tags: SnapshotView) -> MetadataView {
    let basic = match tags.primary {
        Some(b) => Some(b),
        None => tags.first,
    };
    MetadataView {
        path,
        filename: filename_spec(path),
        title: match basic {
            Some(b) => b.title,
            None => None,
        },
        artist: match basic {
            Some(b) => b.artist,
            None => None,
        },
        genre: match basic {
            Some(b) => b.genre,
            None => None,
        },
        mood: None,
        energy: None,
        bpm: None,
        duration_bits: Some(tags.duration_bits),
        category_override: None,
    }
}

/// Whether the system's words for a failure to open tell of a lack of
/// permission.
pub open spec fn tells_permission(detail: Seq<char>) -> bool {
    contains_seq(detail, "Permission denied"@) || contains_seq(detail, "permission denied"@)
}

/// Whether the system's words for a failure to open tell of a missing
/// file.
pub open spec fn tells_missing(detail: Seq<char>) -> bool {
    contains_seq(detail, "No such file"@) || contains_seq(detail, "not found"@)
}

/// The message for a file that could not be read. It names the path of
/// the file and what was tried.
pub open spec fn read_error_text(path: Seq<char>, failure: ReadFailureView) -> Seq<char> {
    match failure {
        ReadFailureView::Open(detail) => if tells_permission(detail) {
            "Permission denied: Cannot read '"@ + path + "'. Check file permissions."@
        } else if tells_missing(detail) {
            "File not found: Cannot read '"@ + path + "'. It may have been moved or deleted."@
        } else {
            "Cannot open '"@ + path + "': "@ + detail
        },
        ReadFailureView::Decode(detail) => "Cannot read audio data from '"@ + path + "': "@
            + detail,
    }
}

/// The short message for a file that could not be read.
pub open spec fn basic_read_error_text(path: Seq<char>, failure: ReadFailureView) -> Seq<char> {
    match failure {
        ReadFailureView::Open(detail) => "Failed to open file '"@ + path + "': "@ + detail,
        ReadFailureView::Decode(detail) => "Failed to read file '"@ + path + "': "@ + detail,
    }
}

/// Every message for a file that could not be read holds the file's path.
pub proof fn lemma_read_error_names_path(path: Seq<char>, failure: ReadFailureView)
    ensures
        contains_seq(read_error_text(path, failure), path),
        contains_seq(basic_read_error_text(path, failure), path),
{
    let detail = match failure {
        ReadFailureView::Open(detail) => detail,
        ReadFailureView::Decode(detail) => detail,
    };
    lemma_holds_part("Permission denied: Cannot read '"@, path, "'. Check file permissions."@);
    lemma_holds_part(
        "File not found: Cannot read '"@,
        path,
        "'. It may have been moved or deleted."@,
    );
    lemma_holds_part("Cannot open '"@, path, "': "@ + detail);
    lemma_holds_part("Cannot read audio data from '"@, path, "': "@ + detail);
    lemma_holds_part("Failed to open file '"@, path, "': "@ + detail);
    lemma_holds_part("Failed to read file '"@, path, "': "@ + detail);
    assert("Cannot open '"@ + path + "': "@ + detail == "Cannot open '"@ + path + ("': "@ + detail));
    assert("Cannot read audio data from '"@ + path + "': "@ + detail
        == "Cannot read audio data from '"@ + path + ("': "@ + detail));
    assert("Failed to open file '"@ + path + "': "@ + detail == "Failed to open file '"@ + path + (
        "': "@ + detail));
    assert("Failed to read file '"@ + path + "': "@ + detail == "Failed to read file '"@ + path + (
        "': "@ + detail));
}

fn first_custom_mood(items: &Vec<TagText>) -> (r: Option<String>)
    ensures
        opt_view(r) == custom_mood(item_views(items@)),
{
    let ghost all = item_views(items@);
    assert(all.subrange(0, all.len() as int) == all);
    let mut i: usize = 0;
    while i < items.len()
        invariant
            i <= items.len(),
            all == item_views(items@),
            custom_mood(all) == custom_mood(all.subrange(i as int, all.len() as int)),
        decreases items.len() - i,
    {
        let ghost rest = all.subrange(i as int, all.len() as int);
        assert(rest[0] == items@[i as int]@);
        assert(rest.drop_first() == all.subrange(i + 1, all.len() as int));
        let item = &items[i];
        if let Some(key) = &item.key {
            let lower = to_lowercase(key.as_str());
            if contains_text(lower.as_str(), "mood") || contains_text(lower.as_str(), "style")
                || contains_text(lower.as_str(), "vibe") {
                if let Some(text) = &item.text {
                    return Some(text.clone());
                }
            }
        }
        i += 1;
    }
    assert(all.subrange(all.len() as int, all.len() as int).len() == 0);
    None
}

fn mood_of(tags: &Id3Tags) -> (r: Option<String>)
    ensures
        opt_view(r) == mood_spec(tags@),
{
    if tags.content_group.is_some() {
        return copy_opt(&tags.content_group);
    }
    if tags.mood.is_some() {
        return copy_opt(&tags.mood);
    }
    if let Some(comment) = &tags.comment {
        if comment.as_str().as_bytes().len() < 50 && !contains_char(comment.as_str(), '.') {
            return Some(comment.clone());
        }
    }
    let custom = first_custom_mood(&tags.items);
    if custom.is_some() {
        return custom;
    }
    if let Some(text) = &tags.initial_key {
        if !contains_char(text.as_str(), '#') && !contains_char(text.as_str(), 'm')
            && text.as_str().as_bytes().len() > 3 {
            return Some(text.clone());
        }
    }
    None
}

fn basic_fields(basic: &Option<BasicTags>) -> (r: (Option<String>, Option<String>, Option<String>))
    ensures
        match basic {
            Some(b) => opt_view(r.0) == b@.title && opt_view(r.1) == b@.artist && opt_view(r.2)
                == b@.genre,
            None => r.0 is None && r.1 is None && r.2 is None,
        },
{
    match basic {
        Some(b) => (copy_opt(&b.title), copy_opt(&b.artist), copy_opt(&b.genre)),
        None => (None, None, None),
    }
}

/// The record of a file by all that its tags tell, or the message for the
/// user where the file could not be read.
pub fn read_audio_metadata_full(path: &str, source: &Result<TagSnapshot, ReadFailure>) -> (r:
    Result<AudioMetadata, String>)
    ensures
        match *source {
            Ok(tags) => r is Ok && r.unwrap()@ == full_metadata_spec(path@, tags@),
            Err(failure) => r is Err && r.unwrap_err()@ == read_error_text(path@, failure@),
        },
{
    let filename = filename_of(path);
    match source {
        Err(ReadFailure::Open(detail)) => {
            let text = detail.as_str();
            let mut m: String;
            if contains_text(text, "Permission denied") || contains_text(text, "permission denied") {
                m = "Permission denied: Cannot read '".to_string();
                m.append(path);
                m.append("'. Check file permissions.");
            } else if contains_text(text, "No such file") || contains_text(text, "not found") {
                m = "File not found: Cannot read '".to_string();
                m.append(path);
                m.append("'. It may have been moved or deleted.");
            } else {
                m = "Cannot open '".to_string();
                m.append(path);
                m.append("': ");
                m.append(text);
            }
            Err(m)
        },
        Err(ReadFailure::Decode(detail)) => {
            let mut m = "Cannot read audio data from '".to_string();
            m.append(path);
            m.append("': ");
            m.append(detail.as_str());
            Err(m)
        },
        Ok(tags) => {
            let metadata = match &tags.id3v2 {
                Some(id3) => AudioMetadata {
                    path: path.to_owned(),
                    filename,
                    title: copy_opt(&id3.basic.title),
                    artist: copy_opt(&id3.basic.artist),
                    genre: copy_opt(&id3.basic.genre),
                    mood: mood_of(id3),
                    energy: copy_opt(&id3.subtitle),
                    bpm: match &id3.bpm {
                        Some(text) => parse_u32(text.as_str()),
                        None => None,
                    },
                    duration_bits: Some(tags.duration_bits),
                    category_override: None,
                },
                None => {
                    let fields = basic_fields(&tags.primary);
                    AudioMetadata {
                        path: path.to_owned(),
                        filename,
                        title: fields.0,
                        artist: fields.1,
                        genre: fields.2,
                        mood: None,
                        energy: None,
                        bpm: None,
                        duration_bits: Some(tags.duration_bits),
                        category_override: None,
                    }
                },
            };
            Ok(metadata)
        },
    }
}

/// The record of a file by the three fields that every tag has, or the
/// short message where the file could not be read.
pub fn read_audio_metadata(path: &str, source: &Result<TagSnapshot, ReadFailure>) -> (r: Result<
    AudioMetadata,
    String,
>)
    ensures
        match *source {
            Ok(tags) => r is Ok && r.unwrap()@ == basic_metadata_spec(path@, tags@),
            Err(failure) => r is Err && r.unwrap_err()@ == basic_read_error_text(
                path@,
                failure@,
            ),
        },
{
    match source {
        Err(ReadFailure::Open(detail)) => {
            let mut m = "Failed to open file '".to_string();
            m.append(path);
            m.append("': ");
            m.append(detail.as_str());
            Err(m)
        },
        Err(ReadFailure::Decode(detail)) => {
            let mut m = "Failed to read file '".to_string();
            m.append(path);
            m.append("': ");
            m.append(detail.as_str());
            Err(m)
        },
        Ok(tags) => {
            let fields = if tags.primary.is_some() {
                basic_fields(&tags.primary)
            } else {
                basic_fields(&tags.first)
            };
            Ok(
                AudioMetadata {
                    path: path.to_owned(),
                    filename: filename_of(path),
                    title: fields.0,
                    artist: fields.1,
                    genre: fields.2,
                    mood: None,
                    energy: None,
                    bpm: None,
                    duration_bits: Some(tags.duration_bits),
                    category_override: None,
                },
            )
        },
    }
}

} // verus!
