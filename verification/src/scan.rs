//! Scanning: from paths to records, by way of the cache where that is
//! asked for.
//!
//! Cache and files are the caller's. A `ScanJob` says what is to be done
//! next, the caller does it and reports what came of it. A file that
//! cannot be read never ends a scan: it gets a record with nothing but its
//! path and name, or is passed over where a folder is scanned.

use vstd::prelude::*;
use crate::metadata::{
    file_views, metadata_opt_view, placeholder_spec, AudioMetadata, MetadataView,
};
use crate::paths::{extension, extension_of_path};
use crate::text::{lowercase_of, same_text, texts, to_lowercase};

verus! {

/// Whether a path names an audio file: its extension is `mp3` or `wav`,
/// in whatever case.
pub open spec fn audio_spec(path: Seq<char>) -> bool {
    match extension_of_path(path) {
        Some(ext) => lowercase_of(ext) == "mp3"@ || lowercase_of(ext) == "wav"@,
        None => false,
    }
}

/// Whether a path names an audio file.
pub fn is_audio_file(path: &str) -> (r: bool)
    ensures
        r == audio_spec(path@),
{
    match extension(path) {
        Some(ext) => {
            let lower = to_lowercase(ext.as_str());
            same_text(lower.as_str(), "mp3") || same_text(lower.as_str(), "wav")
        },
        None => false,
    }
}

/// The paths among the first `n` that name audio files, in order.
pub open spec fn audio_upto(entries: Seq<Seq<char>>, n: nat) -> Seq<Seq<char>>
    decreases n,
{
    if n == 0 {
        Seq::empty()
    } else {
        let rest = audio_upto(entries, (n - 1) as nat);
        if audio_spec(entries[n - 1]) {
            rest.push(entries[n - 1])
        } else {
            rest
        }
    }
}

/// The files to read of what was found under a folder: those that are
/// audio files by their names, in the order in which they were found.
pub fn scan_directory(entries: &[String]) -> (r: Vec<String>)
    ensures
        texts(r@) == audio_upto(texts(entries@), entries.len() as nat),
{
    let mut r: Vec<String> = Vec::new();
    let mut i: usize = 0;
    while i < entries.len()
        invariant
            i <= entries.len(),
            texts(r@) == audio_upto(texts(entries@), i as nat),
        decreases entries.len() - i,
    {
        if is_audio_file(entries[i].as_str()) {
            let path = entries[i].clone();
            assert(texts(r@.push(path)) == texts(r@).push(path@));
            r.push(path);
        }
        i += 1;
    }
    r
}

/// How a scan goes about its paths.
#[derive(Clone, Copy, Debug, PartialEq, Eq, Structural)]
pub enum ScanMode {
    /// Ask the cache first; read what it does not have, and store what
    /// was read.
    Cached,
    /// Forget what the cache has of the paths, read each, and store what
    /// was read.
    Fresh,
    /// As `Cached`, for the files found under a folder: what cannot be
    /// read is passed over.
    Folder,
}

/// Where a scan stands.
#[derive(Clone, Copy, Debug, PartialEq, Eq, Structural)]
pub enum ScanStage {
    /// The cache is being made ready.
    Setup,
    /// The cache is being asked for the current path.
    Lookup,
    /// The current file is being read.
    Read,
    /// The record of the current file is being stored.
    Store,
    Done,
}

/// What the caller is to do next.
#[derive(Clone, Debug, PartialEq, Eq)]
pub enum ScanAction {
    /// Set up the store.
    Prepare,
    /// Remove the entries of these paths from the store.
    Invalidate(Vec<String>),
    /// Look the path up in the store.
    Lookup(String),
    /// Read the tags of the file and make its record.
    Read(String),
    /// Store the record.
    Store(AudioMetadata),
    /// Nothing: the scan is finished.
    Finished,
}

/// A `ScanAction` as plain values.
pub enum ScanActionView {
    Prepare,
    Invalidate(Seq<Seq<char>>),
    Lookup(Seq<char>),
    Read(Seq<char>),
    Store(MetadataView),
    Finished,
}

impl View for ScanAction {
    type V = ScanActionView;

    open spec fn view(&self) -> ScanActionView {
        match self {
            ScanAction::Prepare => ScanActionView::Prepare,
            ScanAction::Invalidate(paths) => ScanActionView::Invalidate(texts(paths@)),
            ScanAction::Lookup(path) => ScanActionView::Lookup(path@),
            ScanAction::Read(path) => ScanActionView::Read(path@),
            ScanAction::Store(metadata) => ScanActionView::Store(metadata@),
            ScanAction::Finished => ScanActionView::Finished,
        }
    }
}

/// What the caller reports of an action.
#[derive(Clone, Debug, PartialEq, Eq)]
pub enum ScanReply {
    /// It is done, and there is nothing to hand over.
    Done,
    /// It failed, with this message.
    Failed(String),
    /// The record that was looked up or read.
    Found(AudioMetadata),
    /// The store has no valid entry for the path.
    Missing,
}

/// A `ScanReply` as plain values.
pub enum ScanReplyView {
    Done,
    Failed(Seq<char>),
    Found(MetadataView),
    Missing,
}

impl View for ScanReply {
    type V = ScanReplyView;

    open spec fn view(&self) -> ScanReplyView {
        match self {
            ScanReply::Done => ScanReplyView::Done,
            ScanReply::Failed(message) => ScanReplyView::Failed(message@),
            ScanReply::Found(metadata) => ScanReplyView::Found(metadata@),
            ScanReply::Missing => ScanReplyView::Missing,
        }
    }
}

/// A scan as plain values.
pub struct ScanView {
    pub paths: Seq<Seq<char>>,
    pub mode: ScanMode,
    /// The number of paths that are done; the index of the current one.
    pub next: nat,
    pub stage: ScanStage,
    pub results: Seq<MetadataView>,
    /// The record that is being stored.
    pub pending: Option<MetadataView>,
}

impl ScanView {
    pub open spec fn path(self) -> Seq<char> {
        self.paths[self.next as int]
    }

    /// What holds of every scan from its start on.
    pub open spec fn inv(self) -> bool {
        &&& self.next <= self.paths.len()
        &&& self.stage is Setup ==> self.next == 0
        &&& !(self.stage is Setup || self.stage is Done) ==> self.next < self.paths.len()
        &&& self.stage is Done ==> self.next == self.paths.len()
        &&& self.stage is Store <==> self.pending is Some
        &&& self.stage is Lookup ==> !(self.mode is Fresh)
        &&& self.results.len() <= self.next
        &&& !(self.mode is Folder) ==> self.results.len() == self.next
    }
}

/// The scan at its start.
pub open spec fn scan_start(paths: Seq<Seq<char>>, mode: ScanMode) -> ScanView {
    ScanView {
        paths,
        mode,
        next: 0,
        stage: ScanStage::Setup,
        results: Seq::empty(),
        pending: None,
    }
}

/// What the caller is to do next.
pub open spec fn scan_action(s: ScanView) -> ScanActionView {
    match s.stage {
        ScanStage::Setup => if s.mode is Fresh {
            ScanActionView::Invalidate(s.paths)
        } else {
            ScanActionView::Prepare
        },
        ScanStage::Lookup => ScanActionView::Lookup(s.path()),
        ScanStage::Read => ScanActionView::Read(s.path()),
        ScanStage::Store => match s.pending {
            Some(metadata) => ScanActionView::Store(metadata),
            None => ScanActionView::Finished,
        },
        ScanStage::Done => ScanActionView::Finished,
    }
}

/// The scan on turning to the path at `next`: the cache is asked first,
/// except where the scan reads anew; where no path is left, the scan is
/// done.
pub open spec fn enter_path(s: ScanView) -> ScanView {
    if s.next < s.paths.len() {
        if s.mode is Fresh {
            ScanView { stage: ScanStage::Read, ..s }
        } else {
            ScanView { stage: ScanStage::Lookup, ..s }
        }
    } else {
        ScanView { stage: ScanStage::Done, ..s }
    }
}

/// The scan once the current path is done, with its record if it has one.
pub open spec fn path_done(s: ScanView, record: Option<MetadataView>) -> ScanView {
    let results = match record {
        Some(metadata) => s.results.push(metadata),
        None => s.results,
    };
    enter_path(ScanView { results, next: s.next + 1, pending: None, ..s })
}

/// The scan after the caller's report of the action it was asked for.
///
/// Nothing that the cache does ends a scan. Whether or not it could be
/// made ready, or be made to forget the paths of a scan that reads anew,
/// the scan turns to its first path: without a cache each lookup is a miss
/// and each storing is in vain. A record that the cache has is taken as it
/// is; whatever else the cache says, the file is read. A record that was read is stored, and is the file's record
/// whatever becomes of the storing. A file that cannot be read gets a
/// record with its path and name alone, except where a folder is scanned:
/// there it gets none.
pub open spec fn scan_step(s: ScanView, reply: ScanReplyView) -> ScanView {
    match s.stage {
        ScanStage::Setup => enter_path(s),
        ScanStage::Lookup => match reply {
            ScanReplyView::Found(metadata) => path_done(s, Some(metadata)),
            _ => ScanView { stage: ScanStage::Read, ..s },
        },
        ScanStage::Read => match reply {
            ScanReplyView::Found(metadata) => ScanView {
                stage: ScanStage::Store,
                pending: Some(metadata),
                ..s
            },
            _ => if s.mode is Folder {
                path_done(s, None)
            } else {
                path_done(s, Some(placeholder_spec(s.path())))
            },
        },
        ScanStage::Store => path_done(s, s.pending),
        ScanStage::Done => s,
    }
}

/// A scan in progress.
pub struct ScanJob<'a> {
    paths: &'a [String],
    mode: ScanMode,
    next: usize,
    stage: ScanStage,
    results: Vec<AudioMetadata>,
    pending: Option<AudioMetadata>,
}

impl<'a> View for ScanJob<'a> {
    type V = ScanView;

    closed spec fn view(&self) -> ScanView {
        ScanView {
            paths: texts(self.paths@),
            mode: self.mode,
            next: self.next as nat,
            stage: self.stage,
            results: file_views(self.results@),
            pending: metadata_opt_view(self.pending),
        }
    }
}

impl<'a> ScanJob<'a> {
    /// Whether the scan is as every scan is that was begun by one of the
    /// functions of this module and stepped.
    pub closed spec fn wf(&self) -> bool {
        self@.inv()
    }

    fn enter(&mut self)
        ensures
            final(self)@ == enter_path(old(self)@),
    {
        if self.next < self.paths.len() {
            match self.mode {
                ScanMode::Fresh => {
                    self.stage = ScanStage::Read;
                },
                _ => {
                    self.stage = ScanStage::Lookup;
                },
            }
        } else {
            self.stage = ScanStage::Done;
        }
    }

    fn finish_path(&mut self, record: Option<AudioMetadata>)
        requires
            old(self).next < old(self).paths.len(),
        ensures
            final(self)@ == path_done(old(self)@, metadata_opt_view(record)),
    {
        if let Some(metadata) = record {
            assert(file_views(self.results@.push(metadata)) == file_views(self.results@).push(
                metadata@,
            ));
            self.results.push(metadata);
        }
        self.pending = None;
        self.next += 1;
        self.enter();
    }

    /// What the caller is to do next.
    pub fn action(&self) -> (r: ScanAction)
        requires
            self.wf(),
        ensures
            r@ == scan_action(self@),
    {
        let paths = self.paths;
        match self.stage {
            ScanStage::Setup => match self.mode {
                ScanMode::Fresh => {
                    let mut all: Vec<String> = Vec::new();
                    let mut i: usize = 0;
                    while i < paths.len()
                        invariant
                            i <= paths.len(),
                            texts(all@) == texts(paths@).subrange(0, i as int),
                        decreases paths.len() - i,
                    {
                        let path = paths[i].clone();
                        assert(texts(all@.push(path)) == texts(all@).push(path@));
                        assert(texts(paths@).subrange(0, i + 1) == texts(paths@).subrange(
                            0,
                            i as int,
                        ).push(paths@[i as int]@));
                        all.push(path);
                        i += 1;
                    }
                    assert(texts(all@) == texts(paths@));
                    ScanAction::Invalidate(all)
                },
                _ => ScanAction::Prepare,
            },
            ScanStage::Lookup => ScanAction::Lookup(paths[self.next].clone()),
            ScanStage::Read => ScanAction::Read(paths[self.next].clone()),
            ScanStage::Store => match &self.pending {
                Some(metadata) => ScanAction::Store(metadata.duplicate()),
                None => ScanAction::Finished,
            },
            ScanStage::Done => ScanAction::Finished,
        }
    }

    /// Takes the caller's report of the action that `action` asked for and
    /// goes on.
    pub fn step(&mut self, reply: ScanReply)
        requires
            old(self).wf(),
        ensures
            final(self)@ == scan_step(old(self)@, reply@),
            final(self).wf(),
    {
        let paths = self.paths;
        match self.stage {
            ScanStage::Setup => {
                self.enter();
            },
            ScanStage::Lookup => match reply {
                ScanReply::Found(metadata) => {
                    self.finish_path(Some(metadata));
                },
                _ => {
                    self.stage = ScanStage::Read;
                },
            },
            ScanStage::Read => match reply {
                ScanReply::Found(metadata) => {
                    self.pending = Some(metadata);
                    self.stage = ScanStage::Store;
                },
                _ => match self.mode {
                    ScanMode::Folder => {
                        self.finish_path(None);
                    },
                    _ => {
                        let record = AudioMetadata::placeholder(paths[self.next].as_str());
                        self.finish_path(Some(record));
                    },
                },
            },
            ScanStage::Store => {
                let record = self.pending.take();
                self.finish_path(record);
            },
            ScanStage::Done => {},
        }
    }

    /// The outcome of a finished scan: its records, in the order of the
    /// paths. A scan never fails. A scan of given paths has one record for
    /// each path; a scan of a folder has one for each file that the cache
    /// had or that could be read. A scan that is not finished has no
    /// outcome yet.
    pub fn finish(self) -> (r: Option<Result<Vec<AudioMetadata>, String>>)
        requires
            self.wf(),
        ensures
            r is Some <==> self@.stage is Done,
            r matches Some(outcome) ==> {
                &&& outcome is Ok
                &&& file_views(outcome.unwrap()@) == self@.results
                &&& outcome.unwrap().len() <= self@.paths.len()
                &&& !(self@.mode is Folder) ==> outcome.unwrap().len() == self@.paths.len()
            },
    {
        match self.stage {
            ScanStage::Done => Some(Ok(self.results)),
            _ => None,
        }
    }
}

fn begin<'a>(paths: &'a [String], mode: ScanMode) -> (job: ScanJob<'a>)
    ensures
        job@ == scan_start(texts(paths@), mode),
        job.wf(),
{
    let results: Vec<AudioMetadata> = Vec::new();
    assert(file_views(results@) == Seq::<MetadataView>::empty());
    ScanJob {
        paths,
        mode,
        next: 0,
        stage: ScanStage::Setup,
        results,
        pending: None,
    }
}

/// Begins a scan of the given files that goes by the cache.
pub fn scan_audio_files<'a>(paths: &'a [String]) -> (job: ScanJob<'a>)
    ensures
        job@ == scan_start(texts(paths@), ScanMode::Cached),
        job.wf(),
{
    begin(paths, ScanMode::Cached)
}

/// Begins a scan of the given files that reads each anew.
pub fn rescan_files<'a>(paths: &'a [String]) -> (job: ScanJob<'a>)
    ensures
        job@ == scan_start(texts(paths@), ScanMode::Fresh),
        job.wf(),
{
    begin(paths, ScanMode::Fresh)
}

/// Begins a scan of the audio files that were found under a folder, as
/// `scan_directory` picks them.
pub fn scan_found_files<'a>(paths: &'a [String]) -> (job: ScanJob<'a>)
    ensures
        job@ == scan_start(texts(paths@), ScanMode::Folder),
        job.wf(),
{
    begin(paths, ScanMode::Folder)
}

/// What holds of a scan at its start holds after every step: a scan of
/// given paths has one record for each path that is done, and a scan ends
/// only when every path is done.
pub proof fn lemma_scan_keeps_inv(s: ScanView, reply: ScanReplyView)
    requires
        s.inv(),
    ensures
        scan_step(s, reply).inv(),
{
}

/// After a scan was made fresh, no path is looked up in the cache: each
/// file is read.
pub proof fn lemma_fresh_scan_reads(s: ScanView)
    requires
        s.inv(),
        s.mode is Fresh,
    ensures
        !(scan_action(s) is Lookup),
        !(scan_action(s) is Prepare),
{
}

/// Whether the records of a scan are those of its paths, each in its
/// place: record `i` has path `i`, and so has the record that is being
/// stored.
pub open spec fn answers_paths(s: ScanView) -> bool {
    &&& s.results.len() == s.next
    &&& forall|i: int| 0 <= i < s.results.len() ==> (#[trigger] s.results[i]).path == s.paths[i]
    &&& s.pending matches Some(metadata) ==> metadata.path == s.path()
}

/// Where cache and reader hand over records of the path they were asked
/// for, a scan of given paths keeps its records in the places of their
/// paths, whatever else is reported: a path that could not be read has its
/// own placeholder there.
pub proof fn lemma_scan_answers_paths(s: ScanView, reply: ScanReplyView)
    requires
        s.inv(),
        !(s.mode is Folder),
        answers_paths(s),
        reply matches ScanReplyView::Found(metadata) ==> s.next < s.paths.len() && metadata.path
            == s.path(),
    ensures
        answers_paths(scan_step(s, reply)),
{
}

/// The run of a scan over the first `n` of a sequence of reports.
pub open spec fn scan_run(s: ScanView, replies: Seq<ScanReplyView>, n: nat) -> ScanView
    decreases n,
{
    if n == 0 {
        s
    } else {
        scan_step(scan_run(s, replies, (n - 1) as nat), replies[n - 1])
    }
}

/// Whatever is reported to a scan, of the cache or of the files, it stays
/// sound and never ends before its last path: once it is done, a scan of
/// given paths has one record for each of them.
pub proof fn lemma_scan_run(paths: Seq<Seq<char>>, mode: ScanMode, replies: Seq<ScanReplyView>, n: nat)
    ensures
        scan_run(scan_start(paths, mode), replies, n).inv(),
        scan_run(scan_start(paths, mode), replies, n).stage is Done && !(mode is Folder)
            ==> scan_run(scan_start(paths, mode), replies, n).results.len() == paths.len(),
    decreases n,
{
    lemma_scan_run_keeps(paths, mode, replies, n);
}

proof fn lemma_scan_run_keeps(
    paths: Seq<Seq<char>>,
    mode: ScanMode,
    replies: Seq<ScanReplyView>,
    n: nat,
)
    ensures
        scan_run(scan_start(paths, mode), replies, n).inv(),
        scan_run(scan_start(paths, mode), replies, n).mode == mode,
        scan_run(scan_start(paths, mode), replies, n).paths == paths,
    decreases n,
{
    if n > 0 {
        lemma_scan_run_keeps(paths, mode, replies, (n - 1) as nat);
        lemma_scan_keeps_inv(scan_run(scan_start(paths, mode), replies, (n - 1) as nat), replies[n - 1]);
    }
}

} // verus!
