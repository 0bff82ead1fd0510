//! A preview of a batch: which file names would go to which category,
//! without a file being touched.

use vstd::prelude::*;
use crate::category::folder_spec;
use crate::duplicates::folders_of;
use crate::metadata::AudioMetadata;
use crate::text::{same_text, texts};

verus! {

/// The file names that would go to one category.
#[derive(Clone, Debug, PartialEq, Eq)]
pub struct CategoryPreview {
    pub category: String,
    pub files: Vec<String>,
}

/// A `CategoryPreview` as plain values.
pub struct PreviewView {
    pub category: Seq<char>,
    pub files: Seq<Seq<char>>,
}

impl View for CategoryPreview {
    type V = PreviewView;

    open spec fn view(&self) -> PreviewView {
        PreviewView { category: self.category@, files: texts(self.files@) }
    }
}

/// The views of a run of previews.
pub open spec fn preview_views(v: Seq<CategoryPreview>) -> Seq<PreviewView> {
    Seq::new(v.len(), |i: int| v[i]@)
}

/// Whether no file before `files[i]` goes to its folder.
pub open spec fn opens_folder(files: Seq<AudioMetadata>, mode: Seq<char>, i: int) -> bool {
    forall|j: int| 0 <= j < i ==> folder_spec(#[trigger] files[j]@, mode) != folder_spec(files[i]@, mode)
}

/// The names of the files among the first `n` that go to `folder`, in the
/// order of the input.
pub open spec fn names_in_upto(files: Seq<AudioMetadata>, mode: Seq<char>, folder: Seq<char>, n: nat)
    -> Seq<Seq<char>>
    decreases n,
{
    if n == 0 {
        Seq::empty()
    } else {
        let rest = names_in_upto(files, mode, folder, (n - 1) as nat);
        if folder_spec(files[n - 1]@, mode) == folder {
            rest.push(files[n - 1]@.filename)
        } else {
            rest
        }
    }
}

/// The preview of the folder that `files[i]` goes to.
pub open spec fn preview_of(files: Seq<AudioMetadata>, mode: Seq<char>, i: int) -> PreviewView {
    let folder = folder_spec(files[i]@, mode);
    PreviewView { category: folder, files: names_in_upto(files, mode, folder, files.len()) }
}

/// The previews of the folders that the first `n` files open, in the order
/// in which they are opened.
pub open spec fn preview_upto(files: Seq<AudioMetadata>, mode: Seq<char>, n: nat) -> Seq<
    PreviewView,
>
    decreases n,
{
    if n == 0 {
        Seq::empty()
    } else {
        let rest = preview_upto(files, mode, (n - 1) as nat);
        if opens_folder(files, mode, n - 1) {
            rest.push(preview_of(files, mode, n - 1))
        } else {
            rest
        }
    }
}

fn opens(files: &[AudioMetadata], folders: &Vec<String>, mode: &str, i: usize) -> (r:
    bool)
    requires
        i < files.len(),
        folders.len() == files.len(),
        forall|k: int| 0 <= k < files.len() ==> folders[k]@ == folder_spec(#[trigger] files[k]@, mode@),
    ensures
        r == opens_folder(files@, mode@, i as int),
{
    let mut j: usize = 0;
    while j < i
        invariant
            j <= i < files.len(),
            folders.len() == files.len(),
            forall|k: int|
                0 <= k < files.len() ==> folders[k]@ == folder_spec(#[trigger] files[k]@, mode@),
            forall|k: int|
                0 <= k < j ==> folder_spec(#[trigger] files[k]@, mode@) != folder_spec(
                    files[i as int]@,
                    mode@,
                ),
        decreases i - j,
    {
        if same_text(folders[j].as_str(), folders[i].as_str()) {
            assert(folder_spec(files[j as int]@, mode@) == folder_spec(files[i as int]@, mode@));
            return false;
        }
        j += 1;
    }
    true
}

fn names_in(files: &[AudioMetadata], folders: &Vec<String>, mode: &str, i: usize) -> (r:
    Vec<String>)
    requires
        i < files.len(),
        folders.len() == files.len(),
        forall|k: int| 0 <= k < files.len() ==> folders[k]@ == folder_spec(#[trigger] files[k]@, mode@),
    ensures
        texts(r@) == names_in_upto(
            files@,
            mode@,
            folder_spec(files[i as int]@, mode@),
            files.len() as nat,
        ),
{
    let ghost folder = folder_spec(files[i as int]@, mode@);
    let mut r: Vec<String> = Vec::new();
    let mut k: usize = 0;
    while k < files.len()
        invariant
            k <= files.len(),
            i < files.len(),
            folder == folder_spec(files[i as int]@, mode@),
            folders.len() == files.len(),
            forall|m: int|
                0 <= m < files.len() ==> folders[m]@ == folder_spec(#[trigger] files[m]@, mode@),
            texts(r@) == names_in_upto(files@, mode@, folder, k as nat),
        decreases files.len() - k,
    {
        if same_text(folders[k].as_str(), folders[i].as_str()) {
            let name = files[k].filename.clone();
            assert(texts(r@.push(name)) == texts(r@).push(name@));
            r.push(name);
        }
        k += 1;
    }
    r
}

/// Which file names would go to which category: one entry for each
/// category, in the order in which the batch first meets it, with the names
/// of its files in the order of the input.
pub fn preview_organization(files: &[AudioMetadata], organize_by: &str) -> (r: Vec<
    CategoryPreview,
>)
    ensures
        preview_views(r@) == preview_upto(files@, organize_by@, files.len() as nat),
{
    let folders = folders_of(files, organize_by);
    let mut r: Vec<CategoryPreview> = Vec::new();
    let mut i: usize = 0;
    while i < files.len()
        invariant
            i <= files.len(),
            folders.len() == files.len(),
            forall|k: int|
                0 <= k < files.len() ==> folders[k]@ == folder_spec(
                    #[trigger] files[k]@,
                    organize_by@,
                ),
            preview_views(r@) == preview_upto(files@, organize_by@, i as nat),
        decreases files.len() - i,
    {
        if opens(files, &folders, organize_by, i) {
            let entry = CategoryPreview {
                category: folders[i].clone(),
                files: names_in(files, &folders, organize_by, i),
            };
            assert(entry@ == preview_of(files@, organize_by@, i as int));
            assert(preview_views(r@.push(entry)) == preview_views(r@).push(entry@));
            r.push(entry);
        }
        i += 1;
    }
    r
}

} // verus!
