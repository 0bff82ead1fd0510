//! Duplicates: files whose place in the destination is taken already, and
//! files of one batch that would go to the same place.

use vstd::prelude::*;
use crate::category::{folder_of, folder_spec};
use crate::metadata::{AudioMetadata, MetadataView};
use crate::names::NameKey;
use crate::paths::{join, parent_folder_of, parent_folder_spec, path_join};
use crate::report::{format_fs_error, fs_error_text, FsFailure};
use crate::text::{same_text, texts};

verus! {

/// A file whose place in the destination is taken by a file on disk.
#[derive(Clone, Debug, PartialEq, Eq)]
pub struct DuplicateInfo {
    pub source_path: String,
    pub source_filename: String,
    pub existing_path: String,
    pub category: String,
}

/// A `DuplicateInfo` as plain values.
pub struct DuplicateView {
    pub source_path: Seq<char>,
    pub source_filename: Seq<char>,
    pub existing_path: Seq<char>,
    pub category: Seq<char>,
}

impl View for DuplicateInfo {
    type V = DuplicateView;

    open spec fn view(&self) -> DuplicateView {
        DuplicateView {
            source_path: self.source_path@,
            source_filename: self.source_filename@,
            existing_path: self.existing_path@,
            category: self.category@,
        }
    }
}

/// The views of a run of duplicates.
pub open spec fn duplicate_views(v: Seq<DuplicateInfo>) -> Seq<DuplicateView> {
    Seq::new(v.len(), |i: int| v[i]@)
}

/// The folders under which the files of a batch are filed.
pub fn folders_of(files: &[AudioMetadata], organize_by: &str) -> (r: Vec<String>)
    ensures
        r.len() == files.len(),
        forall|i: int| 0 <= i < files.len() ==> r[i]@ == folder_spec(#[trigger] files[i]@, organize_by@),
{
    let mut r: Vec<String> = Vec::new();
    let mut i: usize = 0;
    while i < files.len()
        invariant
            i <= files.len(),
            r.len() == i,
            forall|k: int| 0 <= k < i ==> r[k]@ == folder_spec(#[trigger] files[k]@, organize_by@),
        decreases files.len() - i,
    {
        r.push(folder_of(&files[i], organize_by));
        i += 1;
    }
    r
}

/// The place of a file in the destination: its file name, in the folder of
/// its category, in the output folder.
pub open spec fn target_path_spec(file: MetadataView, output: Seq<char>, mode: Seq<char>) -> Seq<
    char,
> {
    path_join(path_join(output, folder_spec(file, mode)), file.filename)
}

/// What is reported of a file whose place is taken.
pub open spec fn duplicate_of(file: MetadataView, output: Seq<char>, mode: Seq<char>)
    -> DuplicateView {
    DuplicateView {
        source_path: file.path,
        source_filename: file.filename,
        existing_path: target_path_spec(file, output, mode),
        category: folder_spec(file, mode),
    }
}

/// The duplicates among the first `n` files: those whose place is reported
/// as present, in the order of the input. A file without an answer counts
/// as one whose place is free.
pub open spec fn duplicates_upto(
    files: Seq<AudioMetadata>,
    output: Seq<char>,
    mode: Seq<char>,
    present: Seq<bool>,
    n: nat,
) -> Seq<DuplicateView>
    decreases n,
{
    if n == 0 {
        Seq::empty()
    } else {
        let rest = duplicates_upto(files, output, mode, present, (n - 1) as nat);
        if n - 1 < present.len() && present[n - 1] {
            rest.push(duplicate_of(files[n - 1]@, output, mode))
        } else {
            rest
        }
    }
}

/// The place of each file of a batch in the destination, for the caller to
/// look up on disk.
pub fn duplicate_targets(files: &[AudioMetadata], output_folder: &str, organize_by: &str) -> (r:
    Vec<String>)
    ensures
        r.len() == files.len(),
        forall|i: int|
            0 <= i < files.len() ==> r[i]@ == target_path_spec(
                #[trigger] files[i]@,
                output_folder@,
                organize_by@,
            ),
{
    let mut r: Vec<String> = Vec::new();
    let mut i: usize = 0;
    while i < files.len()
        invariant
            i <= files.len(),
            r.len() == i,
            forall|k: int|
                0 <= k < i ==> r[k]@ == target_path_spec(
                    #[trigger] files[k]@,
                    output_folder@,
                    organize_by@,
                ),
        decreases files.len() - i,
    {
        let folder = folder_of(&files[i], organize_by);
        let dir = join(output_folder, folder.as_str());
        r.push(join(dir.as_str(), files[i].filename.as_str()));
        i += 1;
    }
    r
}

/// The files whose place in the destination is taken. `present[i]` tells
/// whether the place of `files[i]`, as `duplicate_targets` gives it, exists
/// on disk.
pub fn find_duplicates(
    files: &[AudioMetadata],
    output_folder: &str,
    organize_by: &str,
    present: &[bool],
) -> (r: Vec<DuplicateInfo>)
    ensures
        duplicate_views(r@) == duplicates_upto(
            files@,
            output_folder@,
            organize_by@,
            present@,
            files.len() as nat,
        ),
{
    let mut r: Vec<DuplicateInfo> = Vec::new();
    let mut i: usize = 0;
    while i < files.len()
        invariant
            i <= files.len(),
            duplicate_views(r@) == duplicates_upto(
                files@,
                output_folder@,
                organize_by@,
                present@,
                i as nat,
            ),
        decreases files.len() - i,
    {
        if i < present.len() && present[i] {
            let file = &files[i];
            let folder = folder_of(file, organize_by);
            let dir = join(output_folder, folder.as_str());
            let info = DuplicateInfo {
                source_path: file.path.clone(),
                source_filename: file.filename.clone(),
                existing_path: join(dir.as_str(), file.filename.as_str()),
                category: folder,
            };
            assert(duplicate_views(r@.push(info)) == duplicate_views(r@).push(info@));
            r.push(info);
        }
        i += 1;
    }
    r
}

/// One attempt to delete a file: the path, and the failure if there was
/// one.
#[derive(Clone, Debug, PartialEq, Eq)]
pub struct DeleteAttempt {
    pub path: String,
    pub failure: Option<FsFailure>,
}

/// The number of attempts among the first `n` that deleted their file.
pub open spec fn deleted_upto(attempts: Seq<DeleteAttempt>, n: nat) -> nat
    decreases n,
{
    if n == 0 {
        0
    } else {
        deleted_upto(attempts, (n - 1) as nat) + if attempts[n - 1].failure is None {
            1nat
        } else {
            0nat
        }
    }
}

/// The messages for the attempts among the first `n` that failed, in
/// order.
pub open spec fn delete_errors_upto(attempts: Seq<DeleteAttempt>, n: nat) -> Seq<Seq<char>>
    decreases n,
{
    if n == 0 {
        Seq::empty()
    } else {
        let rest = delete_errors_upto(attempts, (n - 1) as nat);
        match attempts[n - 1].failure {
            Some(failure) => rest.push(
                fs_error_text(failure.kind, failure.detail@, attempts[n - 1].path@, "delete"@),
            ),
            None => rest,
        }
    }
}

/// No more attempts deleted their file than there were.
pub proof fn lemma_deleted_bound(attempts: Seq<DeleteAttempt>, n: nat)
    ensures
        deleted_upto(attempts, n) <= n,
    decreases n,
{
    if n > 0 {
        lemma_deleted_bound(attempts, (n - 1) as nat);
    }
}

/// The account of a run of deletions, each attempted whatever became of
/// the ones before it: how many files were deleted, and a message for each
/// that was not.
pub fn delete_duplicates(attempts: &[DeleteAttempt]) -> (r: Result<(u32, Vec<String>), String>)
    requires
        attempts.len() <= u32::MAX,
    ensures
        r is Ok,
        r.unwrap().0 == deleted_upto(attempts@, attempts.len() as nat),
        texts(r.unwrap().1@) == delete_errors_upto(attempts@, attempts.len() as nat),
{
    let mut deleted: u32 = 0;
    let mut errors: Vec<String> = Vec::new();
    let mut i: usize = 0;
    while i < attempts.len()
        invariant
            i <= attempts.len() <= u32::MAX,
            deleted == deleted_upto(attempts@, i as nat),
            texts(errors@) == delete_errors_upto(attempts@, i as nat),
        decreases attempts.len() - i,
    {
        proof {
            lemma_deleted_bound(attempts@, i as nat);
        }
        match &attempts[i].failure {
            None => {
                deleted += 1;
            },
            Some(failure) => {
                let message = format_fs_error(failure, attempts[i].path.as_str(), "delete");
                assert(texts(errors@.push(message)) == texts(errors@).push(message@));
                errors.push(message);
            },
        }
        i += 1;
    }
    Ok((deleted, errors))
}

/// One file of a group of source duplicates.
#[derive(Clone, Debug, PartialEq, Eq)]
pub struct SourceDuplicateFile {
    pub path: String,
    /// The name of the folder that holds the file.
    pub folder: String,
}

/// Files of one batch that have the same name and go to the same category.
#[derive(Clone, Debug, PartialEq, Eq)]
pub struct SourceDuplicateGroup {
    pub filename: String,
    pub category: String,
    pub files: Vec<SourceDuplicateFile>,
}

/// A `SourceDuplicateFile` as plain values.
pub struct MemberView {
    pub path: Seq<char>,
    pub folder: Seq<char>,
}

/// A `SourceDuplicateGroup` as plain values.
pub struct GroupView {
    pub filename: Seq<char>,
    pub category: Seq<char>,
    pub files: Seq<MemberView>,
}

impl View for SourceDuplicateFile {
    type V = MemberView;

    open spec fn view(&self) -> MemberView {
        MemberView { path: self.path@, folder: self.folder@ }
    }
}

/// The views of a run of group members.
pub open spec fn member_views(v: Seq<SourceDuplicateFile>) -> Seq<MemberView> {
    Seq::new(v.len(), |i: int| v[i]@)
}

impl View for SourceDuplicateGroup {
    type V = GroupView;

    open spec fn view(&self) -> GroupView {
        GroupView {
            filename: self.filename@,
            category: self.category@,
            files: member_views(self.files@),
        }
    }
}

/// The views of a run of groups.
pub open spec fn group_views(v: Seq<SourceDuplicateGroup>) -> Seq<GroupView> {
    Seq::new(v.len(), |i: int| v[i]@)
}

/// What decides whether two files of a batch collide: file name and folder.
pub open spec fn source_key(file: MetadataView, mode: Seq<char>) -> NameKey {
    (file.filename, folder_spec(file, mode))
}

/// A file as a member of a group.
pub open spec fn member_of(file: MetadataView) -> MemberView {
    MemberView { path: file.path, folder: parent_folder_spec(file.path) }
}

/// Whether no file before `files[i]` has its key.
pub open spec fn is_first_of_key(files: Seq<AudioMetadata>, mode: Seq<char>, i: int) -> bool {
    forall|j: int| 0 <= j < i ==> source_key(#[trigger] files[j]@, mode) != source_key(files[i]@, mode)
}

/// The files among the first `n` with a given key, in the order of the
/// input.
pub open spec fn members_upto(files: Seq<AudioMetadata>, mode: Seq<char>, key: NameKey, n: nat)
    -> Seq<MemberView>
    decreases n,
{
    if n == 0 {
        Seq::empty()
    } else {
        let rest = members_upto(files, mode, key, (n - 1) as nat);
        if source_key(files[n - 1]@, mode) == key {
            rest.push(member_of(files[n - 1]@))
        } else {
            rest
        }
    }
}

/// All the files of the batch with a given key.
pub open spec fn members(files: Seq<AudioMetadata>, mode: Seq<char>, key: NameKey) -> Seq<
    MemberView,
> {
    members_upto(files, mode, key, files.len())
}

/// The group that a file of the batch belongs to.
pub open spec fn group_of(files: Seq<AudioMetadata>, mode: Seq<char>, i: int) -> GroupView {
    let key = source_key(files[i]@, mode);
    GroupView { filename: key.0, category: key.1, files: members(files, mode, key) }
}

/// The groups of two files or more whose first file is among the first `n`
/// of the batch, in the order of their first files.
pub open spec fn duplicate_groups_upto(files: Seq<AudioMetadata>, mode: Seq<char>, n: nat) -> Seq<
    GroupView,
>
    decreases n,
{
    if n == 0 {
        Seq::empty()
    } else {
        let rest = duplicate_groups_upto(files, mode, (n - 1) as nat);
        if is_first_of_key(files, mode, n - 1) && group_of(files, mode, n - 1).files.len() > 1 {
            rest.push(group_of(files, mode, n - 1))
        } else {
            rest
        }
    }
}

/// The groups of source duplicates of a batch.
pub open spec fn duplicate_groups(files: Seq<AudioMetadata>, mode: Seq<char>) -> Seq<GroupView> {
    duplicate_groups_upto(files, mode, files.len())
}

fn is_first(files: &[AudioMetadata], folders: &Vec<String>, mode: &str, i: usize) -> (r:
    bool)
    requires
        i < files.len(),
        folders.len() == files.len(),
        forall|k: int| 0 <= k < files.len() ==> folders[k]@ == folder_spec(#[trigger] files[k]@, mode@),
    ensures
        r == is_first_of_key(files@, mode@, i as int),
{
    let mut j: usize = 0;
    while j < i
        invariant
            j <= i < files.len(),
            folders.len() == files.len(),
            forall|k: int|
                0 <= k < files.len() ==> folders[k]@ == folder_spec(#[trigger] files[k]@, mode@),
            forall|k: int|
                0 <= k < j ==> source_key(#[trigger] files[k]@, mode@) != source_key(
                    files[i as int]@,
                    mode@,
                ),
        decreases i - j,
    {
        if same_text(files[j].filename.as_str(), files[i].filename.as_str()) && same_text(
            folders[j].as_str(),
            folders[i].as_str(),
        ) {
            assert(source_key(files[j as int]@, mode@) == source_key(files[i as int]@, mode@));
            return false;
        }
        j += 1;
    }
    true
}

fn members_of(files: &[AudioMetadata], folders: &Vec<String>, mode: &str, i: usize)
    -> (r: Vec<SourceDuplicateFile>)
    requires
        i < files.len(),
        folders.len() == files.len(),
        forall|k: int| 0 <= k < files.len() ==> folders[k]@ == folder_spec(#[trigger] files[k]@, mode@),
    ensures
        member_views(r@) == members(files@, mode@, source_key(files[i as int]@, mode@)),
{
    let ghost key = source_key(files[i as int]@, mode@);
    let mut r: Vec<SourceDuplicateFile> = Vec::new();
    let mut k: usize = 0;
    while k < files.len()
        invariant
            k <= files.len(),
            i < files.len(),
            key == source_key(files[i as int]@, mode@),
            folders.len() == files.len(),
            forall|m: int|
                0 <= m < files.len() ==> folders[m]@ == folder_spec(#[trigger] files[m]@, mode@),
            member_views(r@) == members_upto(files@, mode@, key, k as nat),
        decreases files.len() - k,
    {
        if same_text(files[k].filename.as_str(), files[i].filename.as_str()) && same_text(
            folders[k].as_str(),
            folders[i].as_str(),
        ) {
            let member = SourceDuplicateFile {
                path: files[k].path.clone(),
                folder: parent_folder_of(files[k].path.as_str()),
            };
            assert(member_views(r@.push(member)) == member_views(r@).push(member@));
            r.push(member);
        }
        k += 1;
    }
    r
}

/// The groups of files of a batch that have the same name and go to the
/// same category: each group of two or more, in the order of their first
/// files, with its members in the order of the input.
pub fn find_source_duplicates(files: &[AudioMetadata], organize_by: &str) -> (r: Vec<
    SourceDuplicateGroup,
>)
    ensures
        group_views(r@) == duplicate_groups(files@, organize_by@),
{
    let folders = folders_of(files, organize_by);
    let mut r: Vec<SourceDuplicateGroup> = Vec::new();
    let mut i: usize = 0;
    while i < files.len()
        invariant
            i <= files.len(),
            folders.len() == files.len(),
            forall|k: int|
                0 <= k < files.len() ==> folders[k]@ == folder_spec(
                    #[trigger] files[k]@,
                    organize_by@,
                ),
            group_views(r@) == duplicate_groups_upto(files@, organize_by@, i as nat),
        decreases files.len() - i,
    {
        if is_first(files, &folders, organize_by, i) {
            let found = members_of(files, &folders, organize_by, i);
            if found.len() > 1 {
                let group = SourceDuplicateGroup {
                    filename: files[i].filename.clone(),
                    category: folders[i].clone(),
                    files: found,
                };
                assert(group@ == group_of(files@, organize_by@, i as int));
                assert(group_views(r@.push(group)) == group_views(r@).push(group@));
                r.push(group);
            }
        }
        i += 1;
    }
    r
}

/// Whether `files[i]` and `files[j]` are two files with the key `key`.
pub open spec fn share_key(
    files: Seq<AudioMetadata>,
    mode: Seq<char>,
    key: NameKey,
    i: int,
    j: int,
) -> bool {
    0 <= i < j < files.len() && source_key(files[i]@, mode) == key && source_key(files[j]@, mode)
        == key
}

proof fn lemma_member_counts(files: Seq<AudioMetadata>, mode: Seq<char>, key: NameKey, i: int, n: nat)
    requires
        0 <= i < n,
        source_key(files[i]@, mode) == key,
    ensures
        members_upto(files, mode, key, n).len() > members_upto(files, mode, key, i as nat).len(),
    decreases n,
{
    if i < n - 1 {
        lemma_member_counts(files, mode, key, i, (n - 1) as nat);
    }
}

proof fn lemma_one_member(files: Seq<AudioMetadata>, mode: Seq<char>, key: NameKey, n: nat) -> (i:
    int)
    requires
        members_upto(files, mode, key, n).len() >= 1,
    ensures
        0 <= i < n,
        source_key(files[i]@, mode) == key,
        members_upto(files, mode, key, i as nat).len() + 1 == members_upto(
            files,
            mode,
            key,
            n,
        ).len(),
    decreases n,
{
    if source_key(files[n - 1]@, mode) == key {
        n - 1
    } else {
        lemma_one_member(files, mode, key, (n - 1) as nat)
    }
}

/// A group is reported only of files that share its name and category:
/// each group holds all the files of the batch with its key, in the order
/// of the input, and there are two such files at least.
pub proof fn lemma_group_is_shared(files: Seq<AudioMetadata>, mode: Seq<char>, g: int) -> (pair: (
    int,
    int,
))
    requires
        0 <= g < duplicate_groups(files, mode).len(),
    ensures
        ({
            let group = duplicate_groups(files, mode)[g];
            let key = (group.filename, group.category);
            &&& share_key(files, mode, key, pair.0, pair.1)
            &&& group.files == members(files, mode, key)
            &&& group.files.len() >= 2
        }),
{
    let first = lemma_group_origin(files, mode, files.len(), g);
    let group = duplicate_groups(files, mode)[g];
    let key = (group.filename, group.category);
    let j = lemma_one_member(files, mode, key, files.len());
    let i = lemma_one_member(files, mode, key, j as nat);
    (i, j)
}

proof fn lemma_group_origin(files: Seq<AudioMetadata>, mode: Seq<char>, n: nat, g: int) -> (i: int)
    requires
        n <= files.len(),
        0 <= g < duplicate_groups_upto(files, mode, n).len(),
    ensures
        0 <= i < n,
        is_first_of_key(files, mode, i),
        duplicate_groups_upto(files, mode, n)[g] == group_of(files, mode, i),
        group_of(files, mode, i).files.len() > 1,
    decreases n,
{
    let rest = duplicate_groups_upto(files, mode, (n - 1) as nat);
    if g < rest.len() {
        lemma_group_origin(files, mode, (n - 1) as nat, g)
    } else {
        n - 1
    }
}

/// A batch in which no two files share name and category has no group.
pub proof fn lemma_unique_batch_has_no_groups(files: Seq<AudioMetadata>, mode: Seq<char>)
    requires
        forall|i: int, j: int|
            0 <= i < j < files.len() ==> source_key(#[trigger] files[i]@, mode) != source_key(
                #[trigger] files[j]@,
                mode,
            ),
    ensures
        duplicate_groups(files, mode) == Seq::<GroupView>::empty(),
{
    if duplicate_groups(files, mode).len() > 0 {
        let pair = lemma_group_is_shared(files, mode, 0);
        assert(source_key(files[pair.0]@, mode) == source_key(files[pair.1]@, mode));
    }
}

proof fn lemma_first_of_key(files: Seq<AudioMetadata>, mode: Seq<char>, i: int) -> (first: int)
    requires
        0 <= i < files.len(),
    ensures
        0 <= first <= i,
        is_first_of_key(files, mode, first),
        source_key(files[first]@, mode) == source_key(files[i]@, mode),
    decreases i,
{
    if is_first_of_key(files, mode, i) {
        i
    } else {
        let j = choose|j: int|
            0 <= j < i && source_key(#[trigger] files[j]@, mode) == source_key(files[i]@, mode);
        lemma_first_of_key(files, mode, j)
    }
}

proof fn lemma_group_stays(files: Seq<AudioMetadata>, mode: Seq<char>, i: int, n: nat) -> (g: int)
    requires
        0 <= i < n <= files.len(),
        is_first_of_key(files, mode, i),
        group_of(files, mode, i).files.len() > 1,
    ensures
        0 <= g < duplicate_groups_upto(files, mode, n).len(),
        duplicate_groups_upto(files, mode, n)[g] == group_of(files, mode, i),
    decreases n,
{
    if i == n - 1 {
        duplicate_groups_upto(files, mode, (n - 1) as nat).len() as int
    } else {
        lemma_group_stays(files, mode, i, (n - 1) as nat)
    }
}

/// Two files of a batch that share name and category are reported: there
/// is a group with their key.
pub proof fn lemma_shared_key_has_group(files: Seq<AudioMetadata>, mode: Seq<char>, i: int, j: int)
    -> (g: int)
    requires
        0 <= i < j < files.len(),
        source_key(files[i]@, mode) == source_key(files[j]@, mode),
    ensures
        0 <= g < duplicate_groups(files, mode).len(),
        duplicate_groups(files, mode)[g] == group_of(files, mode, i),
{
    let key = source_key(files[i]@, mode);
    let first = lemma_first_of_key(files, mode, i);
    lemma_member_counts(files, mode, key, i, j as nat);
    lemma_member_counts(files, mode, key, j, files.len());
    lemma_group_stays(files, mode, first, files.len())
}

} // verus!
