//! The rules of the metadata cache: what is stored of a file, when a
//! stored entry still stands for the file, and how the store is set up.
//!
//! The store itself is the caller's. The caller reads and writes rows and
//! reports what came of it; what a row means is decided here.

use vstd::prelude::*;
use crate::metadata::{metadata_opt_view, AudioMetadata, MetadataView};
use crate::paths::{filename_of, filename_spec};
use crate::text::{copy_opt, opt_view};
use vstd::string::StringExecFns;

verus! {

/// What stands for the contents of a file: when it was last modified, in
/// seconds since the epoch, and its size in bytes.
#[derive(Clone, Copy, Debug, PartialEq, Eq, Structural)]
pub struct FileIdentity {
    pub modified: i64,
    pub size: i64,
}

/// The identity of a file that is there, by what a look at it gave: the
/// size, and the time of modification, which is 0 where the system does not
/// tell it. Each value is taken over bit by bit.
pub open spec fn identity_spec(modified_secs: Option<u64>, size: u64) -> FileIdentity {
    FileIdentity {
        modified: match modified_secs {
            Some(secs) => secs as i64,
            None => 0,
        },
        size: size as i64,
    }
}

/// The identity that is stored with a row: that of the file, or zeros for
/// a file that could not be looked at.
pub open spec fn stored_identity(seen: Option<FileIdentity>) -> FileIdentity {
    match seen {
        Some(identity) => identity,
        None => FileIdentity { modified: 0, size: 0 },
    }
}

impl FileIdentity {
    /// The identity of a file that is there, by what a look at it gave.
    pub fn from_stat(modified_secs: Option<u64>, size: u64) -> (r: FileIdentity)
        ensures
            r == identity_spec(modified_secs, size),
    {
        FileIdentity {
            modified: match modified_secs {
                Some(secs) => #[verifier::truncate]
                (secs as i64),
                None => 0,
            },
            size: #[verifier::truncate]
            (size as i64),
        }
    }
}

/// One row of the store: what is kept of a file, with the identity that
/// the file had when the row was written.
#[derive(Clone, Debug, PartialEq, Eq)]
pub struct CacheEntry {
    pub path: String,
    pub title: Option<String>,
    pub artist: Option<String>,
    pub genre: Option<String>,
    pub mood: Option<String>,
    pub energy: Option<String>,
    pub bpm: Option<i32>,
    pub duration_bits: Option<u64>,
    pub file_modified: i64,
    pub file_size: Option<i64>,
}

/// A `CacheEntry` as plain values.
pub struct EntryView {
    pub path: Seq<char>,
    pub title: Option<Seq<char>>,
    pub artist: Option<Seq<char>>,
    pub genre: Option<Seq<char>>,
    pub mood: Option<Seq<char>>,
    pub energy: Option<Seq<char>>,
    pub bpm: Option<i32>,
    pub duration_bits: Option<u64>,
    pub file_modified: i64,
    pub file_size: Option<i64>,
}

impl View for CacheEntry {
    type V = EntryView;

    open spec fn view(&self) -> EntryView {
        EntryView {
            path: self.path@,
            title: opt_view(self.title),
            artist: opt_view(self.artist),
            genre: opt_view(self.genre),
            mood: opt_view(self.mood),
            energy: opt_view(self.energy),
            bpm: self.bpm,
            duration_bits: self.duration_bits,
            file_modified: self.file_modified,
            file_size: self.file_size,
        }
    }
}

/// The view of a row that may be missing.
pub open spec fn entry_opt_view(o: Option<CacheEntry>) -> Option<EntryView> {
    match o {
        Some(entry) => Some(entry@),
        None => None,
    }
}

/// The size that a row stands for; a row without one stands for 0.
pub open spec fn stored_size(size: Option<i64>) -> i64 {
    match size {
        Some(bytes) => bytes,
        None => 0,
    }
}

/// Whether a row with this identity still stands for the file as it was
/// seen just now: the file could be looked at, and both its time of
/// modification and its size are those of the row.
pub open spec fn fresh_spec(
    cached_modified: i64,
    cached_size: Option<i64>,
    now: Option<FileIdentity>,
) -> bool {
    match now {
        Some(identity) => cached_modified == identity.modified && stored_size(cached_size)
            == identity.size,
        None => false,
    }
}

/// The row that is written for a record of a file with a given identity.
/// The override of the category is the caller's and is not stored.
pub open spec fn entry_spec(metadata: MetadataView, identity: FileIdentity) -> EntryView {
    EntryView {
        path: metadata.path,
        title: metadata.title,
        artist: metadata.artist,
        genre: metadata.genre,
        mood: metadata.mood,
        energy: metadata.energy,
        bpm: match metadata.bpm {
            Some(bpm) => Some(bpm as i32),
            None => None,
        },
        duration_bits: metadata.duration_bits,
        file_modified: identity.modified,
        file_size: Some(identity.size),
    }
}

/// The record that a row gives back: the file name is the one that belongs
/// to the path, and there is no override.
pub open spec fn restored_spec(entry: EntryView) -> MetadataView {
    MetadataView {
        path: entry.path,
        filename: filename_spec(entry.path),
        title: entry.title,
        artist: entry.artist,
        genre: entry.genre,
        mood: entry.mood,
        energy: entry.energy,
        bpm: match entry.bpm {
            Some(bpm) => Some(bpm as u32),
            None => None,
        },
        duration_bits: entry.duration_bits,
        category_override: None,
    }
}

/// What a lookup gives: the record of the row if there is a row and it is
/// fresh, and nothing else.
pub open spec fn lookup_spec(row: Option<EntryView>, now: Option<FileIdentity>) -> Option<
    MetadataView,
> {
    match row {
        Some(entry) => if fresh_spec(entry.file_modified, entry.file_size, now) {
            Some(restored_spec(entry))
        } else {
            None
        },
        None => None,
    }
}

/// Whether a row with this identity still stands for the file as it was
/// seen just now; `now` is nothing where the file could not be looked at.
pub fn is_fresh(cached_modified: i64, cached_size: Option<i64>, now: &Option<FileIdentity>) -> (r:
    bool)
    ensures
        r == fresh_spec(cached_modified, cached_size, *now),
{
    let size = match cached_size {
        Some(bytes) => bytes,
        None => 0,
    };
    match now {
        Some(identity) => cached_modified == identity.modified && size == identity.size,
        None => false,
    }
}

/// The record that a row gives back.
pub fn metadata_from_entry(entry: &CacheEntry) -> (r: AudioMetadata)
    ensures
        r@ == restored_spec(entry@),
        r@.consistent(),
{
    AudioMetadata {
        path: entry.path.clone(),
        filename: filename_of(entry.path.as_str()),
        title: copy_opt(&entry.title),
        artist: copy_opt(&entry.artist),
        genre: copy_opt(&entry.genre),
        mood: copy_opt(&entry.mood),
        energy: copy_opt(&entry.energy),
        bpm: match entry.bpm {
            Some(bpm) => Some(
                #[verifier::truncate]
                (bpm as u32),
            ),
            None => None,
        },
        duration_bits: entry.duration_bits,
        category_override: None,
    }
}

/// The parts of the store's work that can fail.
#[derive(Clone, Copy, Debug, PartialEq, Eq, Structural)]
pub enum StoreTask {
    Open,
    CreateEntries,
    CreateLedger,
    PurgeForMigration,
    RecordMigration,
    CreateIndex,
    Lookup,
    Write,
    Clear,
}

/// The message for a failed task of the store, with the store's own words
/// for the failure at the end.
pub open spec fn store_error_text(task: StoreTask, detail: Seq<char>) -> Seq<char> {
    match task {
        StoreTask::Open => "Failed to open database: "@ + detail,
        StoreTask::CreateEntries => "Failed to create table: "@ + detail,
        StoreTask::CreateLedger => "Failed to create migrations table: "@ + detail,
        StoreTask::PurgeForMigration => "Failed to clear cache in migration: "@ + detail,
        StoreTask::RecordMigration => "Failed to record migration: "@ + detail,
        StoreTask::CreateIndex => "Failed to create index: "@ + detail,
        StoreTask::Lookup => "Database error: "@ + detail,
        StoreTask::Write => "Failed to cache metadata: "@ + detail,
        StoreTask::Clear => "Failed to clear cache: "@ + detail,
    }
}

/// Words a failed task of the store for the user.
pub fn format_store_error(task: StoreTask, detail: &str) -> (r: String)
    ensures
        r@ == store_error_text(task, detail@),
{
    let mut m = match task {
        StoreTask::Open => "Failed to open database: ".to_string(),
        StoreTask::CreateEntries => "Failed to create table: ".to_string(),
        StoreTask::CreateLedger => "Failed to create migrations table: ".to_string(),
        StoreTask::PurgeForMigration => "Failed to clear cache in migration: ".to_string(),
        StoreTask::RecordMigration => "Failed to record migration: ".to_string(),
        StoreTask::CreateIndex => "Failed to create index: ".to_string(),
        StoreTask::Lookup => "Database error: ".to_string(),
        StoreTask::Write => "Failed to cache metadata: ".to_string(),
        StoreTask::Clear => "Failed to clear cache: ".to_string(),
    };
    m.append(detail);
    m
}

/// What a lookup makes of the row that the store gave for a path, or of
/// the store's failure to give one, for a file seen just now as `now`.
///
/// A missing row, a stale one and a file that could not be looked at are
/// misses, not errors.
pub fn get_cached_metadata(
    row: Result<Option<CacheEntry>, String>,
    now: &Option<FileIdentity>,
) -> (r: Result<Option<AudioMetadata>, String>)
    ensures
        match row {
            Ok(found) => r is Ok && metadata_opt_view(r.unwrap()) == lookup_spec(
                entry_opt_view(found),
                *now,
            ),
            Err(detail) => r is Err && r.unwrap_err()@ == store_error_text(
                StoreTask::Lookup,
                detail@,
            ),
        },
{
    match row {
        Ok(Some(entry)) => {
            if is_fresh(entry.file_modified, entry.file_size, now) {
                Ok(Some(metadata_from_entry(&entry)))
            } else {
                Ok(None)
            }
        },
        Ok(None) => Ok(None),
        Err(detail) => Err(format_store_error(StoreTask::Lookup, detail.as_str())),
    }
}

/// The row to write for a record of a file seen just now as `seen`, which
/// is nothing where the file could not be looked at. The row takes the
/// place of any that the store holds for the path.
pub fn cache_metadata(metadata: &AudioMetadata, seen: &Option<FileIdentity>) -> (r: CacheEntry)
    ensures
        r@ == entry_spec(metadata@, stored_identity(*seen)),
{
    let identity = match seen {
        Some(identity) => *identity,
        None => FileIdentity { modified: 0, size: 0 },
    };
    CacheEntry {
        path: metadata.path.clone(),
        title: copy_opt(&metadata.title),
        artist: copy_opt(&metadata.artist),
        genre: copy_opt(&metadata.genre),
        mood: copy_opt(&metadata.mood),
        energy: copy_opt(&metadata.energy),
        bpm: match metadata.bpm {
            Some(bpm) => Some(
                #[verifier::truncate]
                (bpm as i32),
            ),
            None => None,
        },
        duration_bits: metadata.duration_bits,
        file_modified: identity.modified,
        file_size: Some(identity.size),
    }
}

/// The number of rows that a clearing of the whole store removed: the
/// count taken before, which stands for 0 where it could not be taken.
pub open spec fn cleared_spec(counted: Option<i32>) -> u32 {
    match counted {
        Some(rows) => rows as u32,
        None => 0,
    }
}

/// The account of a clearing of the whole store: `counted` is the number
/// of rows counted before, if the count could be taken, and `deleted` what
/// came of the deletion.
pub fn clear_cache(counted: Option<i32>, deleted: Result<usize, String>) -> (r: Result<
    u32,
    String,
>)
    ensures
        match deleted {
            Ok(_) => r == Ok::<u32, String>(cleared_spec(counted)),
            Err(detail) => r is Err && r.unwrap_err()@ == store_error_text(
                StoreTask::Clear,
                detail@,
            ),
        },
{
    match deleted {
        Ok(_) => {
            let rows: u32 = match counted {
                Some(rows) => #[verifier::truncate]
                (rows as u32),
                None => 0,
            };
            Ok(rows)
        },
        Err(detail) => Err(format_store_error(StoreTask::Clear, detail.as_str())),
    }
}

/// The number of rows that the first `n` deletions removed; a deletion
/// that failed removed none.
pub open spec fn removed_upto(removed: Seq<Option<usize>>, n: nat) -> nat
    decreases n,
{
    if n == 0 {
        0
    } else {
        removed_upto(removed, (n - 1) as nat) + match removed[n - 1] {
            Some(rows) => (rows as u32) as nat,
            None => 0nat,
        }
    }
}

/// The number of rows removed only grows.
pub proof fn lemma_removed_grows(removed: Seq<Option<usize>>, m: nat, n: nat)
    requires
        m <= n,
    ensures
        removed_upto(removed, m) <= removed_upto(removed, n),
    decreases n,
{
    if m < n {
        lemma_removed_grows(removed, m, (n - 1) as nat);
    }
}

/// The account of deleting the rows of some paths, one deletion for each
/// path: the number of rows removed in all. `removed[i]` is the number that
/// the deletion for path `i` reported, or nothing where it failed, which
/// is passed over.
pub fn clear_cache_for_files(removed: &[Option<usize>]) -> (r: Result<u32, String>)
    requires
        removed_upto(removed@, removed.len() as nat) <= u32::MAX,
    ensures
        r == Ok::<u32, String>(removed_upto(removed@, removed.len() as nat) as u32),
{
    let mut count: u32 = 0;
    let mut i: usize = 0;
    while i < removed.len()
        invariant
            i <= removed.len(),
            count == removed_upto(removed@, i as nat),
            removed_upto(removed@, removed.len() as nat) <= u32::MAX,
        decreases removed.len() - i,
    {
        proof {
            lemma_removed_grows(removed@, (i + 1) as nat, removed.len() as nat);
        }
        if let Some(rows) = removed[i] {
            count += #[verifier::truncate]
            (rows as u32);
        }
        i += 1;
    }
    Ok(count)
}

/// A record as it is stored: the file name is the one that belongs to the
/// path, and the caller's override of the category is left out.
pub open spec fn stored_form(metadata: MetadataView) -> MetadataView {
    MetadataView {
        filename: filename_spec(metadata.path),
        category_override: None,
        ..metadata
    }
}

/// After a write, a lookup gives the record back, as it is stored, if and
/// only if the file's identity is what it was at the write: neither its
/// time of modification nor its size has changed.
pub proof fn lemma_lookup_after_put(
    metadata: MetadataView,
    at_put: FileIdentity,
    at_lookup: FileIdentity,
)
    ensures
        lookup_spec(Some(entry_spec(metadata, at_put)), Some(at_lookup)) == if at_lookup
            == at_put {
            Some(stored_form(metadata))
        } else {
            None
        },
{
    if let Some(bpm) = metadata.bpm {
        assert((bpm as i32) as u32 == bpm) by (bit_vector);
    }
}

/// A record whose file name belongs to its path and which has no override
/// is stored as it is, and so comes back from the store exactly.
pub proof fn lemma_lookup_exact(metadata: MetadataView, identity: FileIdentity)
    requires
        metadata.consistent(),
        metadata.category_override is None,
    ensures
        stored_form(metadata) == metadata,
        lookup_spec(Some(entry_spec(metadata, identity)), Some(identity)) == Some(metadata),
{
    lemma_lookup_after_put(metadata, identity, identity);
}

/// Where the store has no row for a path, as after a clearing, or the
/// file cannot be looked at, a lookup gives nothing.
pub proof fn lemma_lookup_misses(row: Option<EntryView>, now: Option<FileIdentity>)
    requires
        row is None || now is None,
    ensures
        lookup_spec(row, now) is None,
{
}

/// The name under which the one-time purge of the store is recorded.
pub open spec fn purge_migration() -> Seq<char> {
    "clear_stale_cache_v2"@
}

/// The name under which the one-time purge of the store is recorded in
/// the ledger of migrations.
pub fn migration_name() -> (r: String)
    ensures
        r@ == purge_migration(),
{
    "clear_stale_cache_v2".to_string()
}

/// The steps in which the store is set up, in their order.
#[derive(Clone, Copy, Debug, PartialEq, Eq, Structural)]
pub enum InitStep {
    /// Open the store, creating it where there is none.
    Open,
    /// Create the table of entries if it is missing.
    CreateEntries,
    /// Add the column for the file size to a table that lacks it.
    AddSizeColumn,
    /// Create the ledger of migrations if it is missing.
    CreateLedger,
    /// Ask the ledger whether the one-time purge is recorded.
    CheckMigration,
    /// Remove every entry.
    PurgeEntries,
    /// Record the one-time purge in the ledger.
    RecordMigration,
    /// Create the index on the path if it is missing.
    CreateIndex,
}

/// What follows a step of the setup.
#[derive(Clone, Debug, PartialEq, Eq)]
pub enum InitNext {
    Run(InitStep),
    /// The store is ready for use.
    Ready,
    /// The setup has failed, with this message.
    Failed(String),
}

/// An `InitNext` as plain values.
pub enum InitNextView {
    Run(InitStep),
    Ready,
    Failed(Seq<char>),
}

impl View for InitNext {
    type V = InitNextView;

    open spec fn view(&self) -> InitNextView {
        match self {
            InitNext::Run(step) => InitNextView::Run(*step),
            InitNext::Ready => InitNextView::Ready,
            InitNext::Failed(message) => InitNextView::Failed(message@),
        }
    }
}

/// What follows a step that went well; `answer` is what the ledger said
/// where it was asked, and has no meaning after another step.
pub open spec fn after_success(step: InitStep, answer: bool) -> InitNextView {
    match step {
        InitStep::Open => InitNextView::Run(InitStep::CreateEntries),
        InitStep::CreateEntries => InitNextView::Run(InitStep::AddSizeColumn),
        InitStep::AddSizeColumn => InitNextView::Run(InitStep::CreateLedger),
        InitStep::CreateLedger => InitNextView::Run(InitStep::CheckMigration),
        InitStep::CheckMigration => if answer {
            InitNextView::Run(InitStep::CreateIndex)
        } else {
            InitNextView::Run(InitStep::PurgeEntries)
        },
        InitStep::PurgeEntries => InitNextView::Run(InitStep::RecordMigration),
        InitStep::RecordMigration => InitNextView::Run(InitStep::CreateIndex),
        InitStep::CreateIndex => InitNextView::Ready,
    }
}

/// What follows a step that failed. A table that has the size column
/// already refuses to get it again, which is no failure; a ledger that
/// cannot be asked counts as one without the record.
pub open spec fn after_failure(step: InitStep, detail: Seq<char>) -> InitNextView {
    match step {
        InitStep::Open => InitNextView::Failed(store_error_text(StoreTask::Open, detail)),
        InitStep::CreateEntries => InitNextView::Failed(
            store_error_text(StoreTask::CreateEntries, detail),
        ),
        InitStep::AddSizeColumn => InitNextView::Run(InitStep::CreateLedger),
        InitStep::CreateLedger => InitNextView::Failed(
            store_error_text(StoreTask::CreateLedger, detail),
        ),
        InitStep::CheckMigration => InitNextView::Run(InitStep::PurgeEntries),
        InitStep::PurgeEntries => InitNextView::Failed(
            store_error_text(StoreTask::PurgeForMigration, detail),
        ),
        InitStep::RecordMigration => InitNextView::Failed(
            store_error_text(StoreTask::RecordMigration, detail),
        ),
        InitStep::CreateIndex => InitNextView::Failed(
            store_error_text(StoreTask::CreateIndex, detail),
        ),
    }
}

/// What follows a step of the setup with a given outcome.
pub open spec fn init_next_spec(step: InitStep, outcome: Result<bool, Seq<char>>) -> InitNextView {
    match outcome {
        Ok(answer) => after_success(step, answer),
        Err(detail) => after_failure(step, detail),
    }
}

/// The view of the outcome of a step.
pub open spec fn outcome_view(outcome: Result<bool, String>) -> Result<bool, Seq<char>> {
    match outcome {
        Ok(answer) => Ok(answer),
        Err(detail) => Err(detail@),
    }
}

/// The first step in setting up the store. The same steps may be run any
/// number of times: each creates only what is missing.
pub fn init_database() -> (r: InitStep)
    ensures
        r == InitStep::Open,
{
    InitStep::Open
}

fn fail(task: StoreTask, detail: &str) -> (r: InitNext)
    ensures
        r@ == InitNextView::Failed(store_error_text(task, detail@)),
{
    InitNext::Failed(format_store_error(task, detail))
}

/// What follows a step of the setup. `outcome` is `Ok` where the step
/// went well, with the ledger's answer where it was asked, and else holds
/// the store's words for the failure.
pub fn after_init_step(step: InitStep, outcome: &Result<bool, String>) -> (r: InitNext)
    ensures
        r@ == init_next_spec(step, outcome_view(*outcome)),
{
    match outcome {
        Ok(answer) => match step {
            InitStep::Open => InitNext::Run(InitStep::CreateEntries),
            InitStep::CreateEntries => InitNext::Run(InitStep::AddSizeColumn),
            InitStep::AddSizeColumn => InitNext::Run(InitStep::CreateLedger),
            InitStep::CreateLedger => InitNext::Run(InitStep::CheckMigration),
            InitStep::CheckMigration => if *answer {
                InitNext::Run(InitStep::CreateIndex)
            } else {
                InitNext::Run(InitStep::PurgeEntries)
            },
            InitStep::PurgeEntries => InitNext::Run(InitStep::RecordMigration),
            InitStep::RecordMigration => InitNext::Run(InitStep::CreateIndex),
            InitStep::CreateIndex => InitNext::Ready,
        },
        Err(detail) => match step {
            InitStep::Open => fail(StoreTask::Open, detail.as_str()),
            InitStep::CreateEntries => fail(StoreTask::CreateEntries, detail.as_str()),
            InitStep::AddSizeColumn => InitNext::Run(InitStep::CreateLedger),
            InitStep::CreateLedger => fail(StoreTask::CreateLedger, detail.as_str()),
            InitStep::CheckMigration => InitNext::Run(InitStep::PurgeEntries),
            InitStep::PurgeEntries => fail(StoreTask::PurgeForMigration, detail.as_str()),
            InitStep::RecordMigration => fail(StoreTask::RecordMigration, detail.as_str()),
            InitStep::CreateIndex => fail(StoreTask::CreateIndex, detail.as_str()),
        },
    }
}

/// The entries are purged only right after the ledger was asked and did
/// not say that the purge is recorded; and once it is recorded, the setup
/// goes on to the index without touching an entry.
pub proof fn lemma_purge_is_guarded(step: InitStep, outcome: Result<bool, Seq<char>>)
    ensures
        init_next_spec(step, outcome) == InitNextView::Run(InitStep::PurgeEntries) ==> step
            == InitStep::CheckMigration && outcome != Ok::<bool, Seq<char>>(true),
        step == InitStep::CheckMigration && outcome == Ok::<bool, Seq<char>>(true)
            ==> init_next_spec(step, outcome) == InitNextView::Run(InitStep::CreateIndex),
{
}

} // verus!
