//! The category of a file: the folder name under which it is filed.

use vstd::prelude::*;
use crate::metadata::{AudioMetadata, MetadataView};
use crate::text::{
    before_first, chars_of, lemma_before_first, same_text, starts_with, trim_range, trim_spec,
};

verus! {

/// The prefix that marks a file name as a catalog track.
pub open spec fn catalog_prefix() -> Seq<char> {
    "ES_"@
}

/// The category of every file that is no catalog track.
pub open spec fn effects_category() -> Seq<char> {
    "SFX"@
}

/// The category of a catalog track for which none can be derived.
pub open spec fn unknown_category() -> Seq<char> {
    "Unknown"@
}

/// Whether a file name lacks the catalog prefix.
pub open spec fn is_sfx_spec(filename: Seq<char>) -> bool {
    !catalog_prefix().is_prefix_of(filename)
}

/// The first entry of a comma-separated list of moods, without the white
/// space around it.
pub open spec fn first_mood(mood: Seq<char>) -> Seq<char> {
    trim_spec(before_first(mood, ','))
}

/// The category of a file under a mode of organizing.
///
/// A file without the catalog prefix is a sound effect whatever else is
/// known of it. For a catalog track the caller's override goes first; then
/// the mode `genre` takes the genre, the mode `mood` the first mood of the
/// list, and any other mode nothing. What is then still open is `Unknown`.
pub open spec fn category_spec(file: MetadataView, mode: Seq<char>) -> Seq<char> {
    if is_sfx_spec(file.filename) {
        effects_category()
    } else if let Some(chosen) = file.category_override {
        chosen
    } else if mode == "genre"@ {
        match file.genre {
            Some(genre) => genre,
            None => unknown_category(),
        }
    } else if mode == "mood"@ {
        match file.mood {
            Some(mood) => first_mood(mood),
            None => unknown_category(),
        }
    } else {
        unknown_category()
    }
}

/// Whether a character may not stand in a folder name.
pub open spec fn is_reserved(c: char) -> bool {
    c == '/' || c == '\\' || c == ':' || c == '*' || c == '?' || c == '"' || c == '<' || c == '>'
        || c == '|'
}

/// A character as it stands in a folder name.
pub open spec fn safe_char(c: char) -> char {
    if is_reserved(c) {
        '_'
    } else {
        c
    }
}

/// A label made safe as a folder name: each reserved character replaced
/// by an underscore, then the white space around the label removed.
pub open spec fn sanitize_spec(name: Seq<char>) -> Seq<char> {
    trim_spec(name.map_values(|c: char| safe_char(c)))
}

/// The folder name under which a file is filed.
pub open spec fn folder_spec(file: MetadataView, mode: Seq<char>) -> Seq<char> {
    sanitize_spec(category_spec(file, mode))
}

/// Whether a file is a sound effect: its name lacks the catalog prefix.
pub fn is_sfx_file(filename: &str) -> (r: bool)
    ensures
        r == is_sfx_spec(filename@),
{
    !starts_with(filename, "ES_")
}

fn first_mood_of(mood: &str) -> (r: String)
    ensures
        r@ == first_mood(mood@),
{
    let v = chars_of(mood);
    let mut n: usize = 0;
    while n < v.len() && v[n] != ','
        invariant
            n <= v.len(),
            forall|k: int| 0 <= k < n ==> v@[k] != ',',
        decreases v.len() - n,
    {
        n += 1;
    }
    proof {
        lemma_before_first(v@, ',', n as int);
    }
    trim_range(&v, 0, n)
}

/// The category of a file under the mode `organize_by`.
pub fn get_file_category(file: &AudioMetadata, organize_by: &str) -> (r: String)
    ensures
        r@ == category_spec(file@, organize_by@),
{
    if is_sfx_file(file.filename.as_str()) {
        return "SFX".to_string();
    }
    if let Some(chosen) = &file.category_override {
        return chosen.clone();
    }
    if same_text(organize_by, "genre") {
        match &file.genre {
            Some(genre) => genre.clone(),
            None => "Unknown".to_string(),
        }
    } else if same_text(organize_by, "mood") {
        match &file.mood {
            Some(mood) => first_mood_of(mood.as_str()),
            None => "Unknown".to_string(),
        }
    } else {
        "Unknown".to_string()
    }
}

/// Makes a label safe as a folder name.
pub fn sanitize_folder_name(name: &str) -> (r: String)
    ensures
        r@ == sanitize_spec(name@),
{
    let v = chars_of(name);
    let mut safe: Vec<char> = Vec::new();
    let mut i: usize = 0;
    while i < v.len()
        invariant
            i <= v.len(),
            safe@ == v@.subrange(0, i as int).map_values(|c: char| safe_char(c)),
        decreases v.len() - i,
    {
        let c = v[i];
        let d = if c == '/' || c == '\\' || c == ':' || c == '*' || c == '?' || c == '"' || c == '<'
            || c == '>' || c == '|' {
            '_'
        } else {
            c
        };
        safe.push(d);
        assert(v@.subrange(0, i + 1).map_values(|c: char| safe_char(c)) == v@.subrange(
            0,
            i as int,
        ).map_values(|c: char| safe_char(c)).push(safe_char(v@[i as int])));
        i += 1;
    }
    assert(v@.subrange(0, v.len() as int) == v@);
    assert(safe@.subrange(0, safe.len() as int) == safe@);
    trim_range(&safe, 0, safe.len())
}

/// The folder name under which a file is filed under the mode
/// `organize_by`.
pub fn folder_of(file: &AudioMetadata, organize_by: &str) -> (r: String)
    ensures
        r@ == folder_spec(file@, organize_by@),
{
    let category = get_file_category(file, organize_by);
    sanitize_folder_name(category.as_str())
}

/// A file whose name lacks the catalog prefix is a sound effect under every
/// mode, whatever override, genre or mood it carries.
pub proof fn lemma_effects_bucket(file: MetadataView, mode: Seq<char>)
    requires
        is_sfx_spec(file.filename),
    ensures
        category_spec(file, mode) == effects_category(),
{
}

/// The category is a function of the mode and of four fields of the
/// record: file name, override, genre and mood. Two records that agree on
/// these get the same category, whatever else they hold.
pub proof fn lemma_category_reads(a: MetadataView, b: MetadataView, mode: Seq<char>)
    requires
        a.filename == b.filename,
        a.category_override == b.category_override,
        a.genre == b.genre,
        a.mood == b.mood,
    ensures
        category_spec(a, mode) == category_spec(b, mode),
        folder_spec(a, mode) == folder_spec(b, mode),
{
}

} // verus!
