//! Organizing a batch: each file of the batch is moved or copied into the
//! folder of its category, under a name that collides with nothing.
//!
//! The file system is the caller's. An `OrganizeJob` says what is to be
//! done next, the caller does it and reports what came of it, and the job
//! decides how to go on. One file's failure never ends the batch; only the
//! output folder must be there.

use vstd::prelude::*;
use crate::category::{folder_of, folder_spec};
use crate::metadata::{file_views, AudioMetadata, MetadataView};
use crate::names::{
    first_step, generate_unique_filename, probe_step, resolve_probe, NameKey, NamePlan,
    NamePlanView, UsedNames,
};
use crate::paths::{join, path_join};
use crate::report::{
    format_fs_error, format_no_name, format_unknown_operation, fs_error_text,
    lemma_fs_error_names_path_and_operation, lemma_holds_two, no_name_text,
    unknown_operation_text, FailureView, FsFailure, OrganizeResult, ResultView,
};
use crate::text::{contains_seq, same_text, texts};

verus! {

/// Where a job stands.
#[derive(Clone, Copy, Debug, PartialEq, Eq, Structural)]
pub enum Stage {
    /// The output folder is being created.
    Root,
    /// The folder of the current file's category is being created.
    Folder,
    /// A name for the current file is under test; the number is the one
    /// under test, 0 for the wanted name itself.
    Probe(u32),
    /// The current file is being renamed to its destination.
    Rename,
    /// The rename failed, and the current file is being copied instead.
    CopyForMove,
    /// The copy that stands in for a rename is done, and the source is
    /// being removed.
    RemoveSource,
    /// The current file is being copied.
    Copy,
    /// Nothing is left to do.
    Done,
}

/// What the caller is to do next.
#[derive(Clone, Debug, PartialEq, Eq)]
pub enum FsAction {
    /// Create a folder and every missing folder above it.
    CreateDirAll(String),
    /// Find out whether a path exists.
    Exists(String),
    Rename { from: String, to: String },
    Copy { from: String, to: String },
    RemoveFile(String),
    /// Nothing: the job is finished.
    Finished,
}

/// An `FsAction` as plain values.
pub enum ActionView {
    CreateDirAll(Seq<char>),
    Exists(Seq<char>),
    Rename { from: Seq<char>, to: Seq<char> },
    Copy { from: Seq<char>, to: Seq<char> },
    RemoveFile(Seq<char>),
    Finished,
}

impl View for FsAction {
    type V = ActionView;

    open spec fn view(&self) -> ActionView {
        match self {
            FsAction::CreateDirAll(path) => ActionView::CreateDirAll(path@),
            FsAction::Exists(path) => ActionView::Exists(path@),
            FsAction::Rename { from, to } => ActionView::Rename { from: from@, to: to@ },
            FsAction::Copy { from, to } => ActionView::Copy { from: from@, to: to@ },
            FsAction::RemoveFile(path) => ActionView::RemoveFile(path@),
            FsAction::Finished => ActionView::Finished,
        }
    }
}

/// The view of what the caller reports of an action.
pub open spec fn reply_view(reply: Result<bool, FsFailure>) -> Result<bool, FailureView> {
    match reply {
        Ok(answer) => Ok(answer),
        Err(failure) => Err(failure@),
    }
}

/// A job as plain values.
pub struct JobView {
    pub files: Seq<MetadataView>,
    pub output: Seq<char>,
    pub mode: Seq<char>,
    pub operation: Seq<char>,
    /// The number of files that are done; the index of the current file.
    pub next: nat,
    pub stage: Stage,
    pub used: Map<NameKey, u32>,
    pub result: ResultView,
    /// The message with which the whole job failed, if it did.
    pub fatal: Option<Seq<char>>,
    /// The path under test while a name is probed, and the destination of
    /// the current file once its name is settled.
    pub dest: Seq<char>,
}

impl JobView {
    pub open spec fn file(self) -> MetadataView {
        self.files[self.next as int]
    }

    /// The folder name of the current file's category.
    pub open spec fn folder(self) -> Seq<char> {
        folder_spec(self.file(), self.mode)
    }

    /// The path of the folder that the current file goes to.
    pub open spec fn dir(self) -> Seq<char> {
        path_join(self.output, self.folder())
    }

    /// What holds of every job from its start on.
    pub open spec fn inv(self) -> bool {
        &&& self.files.len() <= u32::MAX
        &&& self.next <= self.files.len()
        &&& self.stage is Root ==> self.next == 0
        &&& !(self.stage is Root || self.stage is Done) ==> self.next < self.files.len()
        &&& self.stage is Done ==> self.fatal is Some || self.next == self.files.len()
        &&& self.fatal is Some ==> self.stage is Done
        &&& self.result.success_count + self.result.error_count == self.next
        &&& self.result.errors.len() == self.result.error_count
        &&& self.result.skipped_count == 0
        &&& (self.stage is Rename || self.stage is CopyForMove || self.stage is RemoveSource)
            ==> self.operation == "move"@
        &&& self.stage is Copy ==> self.operation == "copy"@
    }
}

/// The job at its start.
pub open spec fn start_spec(
    files: Seq<MetadataView>,
    output: Seq<char>,
    mode: Seq<char>,
    operation: Seq<char>,
) -> JobView {
    JobView {
        files,
        output,
        mode,
        operation,
        next: 0,
        stage: Stage::Root,
        used: Map::empty(),
        result: ResultView {
            success_count: 0,
            error_count: 0,
            skipped_count: 0,
            errors: Seq::empty(),
        },
        fatal: None,
        dest: Seq::empty(),
    }
}

/// What the caller is to do next.
pub open spec fn action_spec(s: JobView) -> ActionView {
    match s.stage {
        Stage::Root => ActionView::CreateDirAll(s.output),
        Stage::Folder => ActionView::CreateDirAll(s.dir()),
        Stage::Probe(_) => ActionView::Exists(s.dest),
        Stage::Rename => ActionView::Rename { from: s.file().path, to: s.dest },
        Stage::CopyForMove => ActionView::Copy { from: s.file().path, to: s.dest },
        Stage::RemoveSource => ActionView::RemoveFile(s.file().path),
        Stage::Copy => ActionView::Copy { from: s.file().path, to: s.dest },
        Stage::Done => ActionView::Finished,
    }
}

/// The job on turning to the file at `next`: its folder is created first;
/// where no file is left, the job is done.
pub open spec fn enter_file(s: JobView) -> JobView {
    if s.next < s.files.len() {
        JobView { stage: Stage::Folder, ..s }
    } else {
        JobView { stage: Stage::Done, ..s }
    }
}

/// The job once the current file is done: a success is counted, or an
/// error is counted and its message added; then the next file is turned
/// to.
pub open spec fn file_done(s: JobView, error: Option<Seq<char>>) -> JobView {
    let result = match error {
        Some(message) => ResultView {
            error_count: (s.result.error_count + 1) as u32,
            errors: s.result.errors.push(message),
            ..s.result
        },
        None => ResultView { success_count: (s.result.success_count + 1) as u32, ..s.result },
    };
    enter_file(JobView { result, next: s.next + 1, ..s })
}

/// The job once a step of resolving the current file's name is made.
///
/// A settled name gives the destination, and the operation begins: `move`
/// with a rename, `copy` with a copy; any other operation is this file's
/// error. A name to probe is put to the caller. No name left is this
/// file's error.
pub open spec fn plan_applied(s: JobView, used: Map<NameKey, u32>, plan: NamePlanView) -> JobView {
    let s = JobView { used, ..s };
    match plan {
        NamePlanView::Settled(name) => {
            let s = JobView { dest: path_join(s.dir(), name), ..s };
            if s.operation == "move"@ {
                JobView { stage: Stage::Rename, ..s }
            } else if s.operation == "copy"@ {
                JobView { stage: Stage::Copy, ..s }
            } else {
                file_done(s, Some(unknown_operation_text(s.operation, s.file().path)))
            }
        },
        NamePlanView::Probe { path, counter } => JobView {
            stage: Stage::Probe(counter),
            dest: path,
            ..s
        },
        NamePlanView::Exhausted => file_done(
            s,
            Some(no_name_text(s.operation, s.file().path)),
        ),
    }
}

/// The message for a failure of the current file's operation: it names the
/// path of the file and the operation.
pub open spec fn operation_error(s: JobView, failure: FailureView) -> Seq<char> {
    fs_error_text(failure.kind, failure.detail, s.file().path, s.operation)
}

/// The job after the caller's report of the action it was asked for.
///
/// The output folder must be there: its failure ends the job. A category
/// folder that cannot be created is its file's error. A path that cannot be
/// looked at counts as one that does not exist. A rename that fails is
/// made up for by a copy and the removal of the source, and a failure of
/// either is the file's error; the copy is not undone. A finished job
/// stays as it is.
pub open spec fn step_spec(s: JobView, reply: Result<bool, FailureView>) -> JobView {
    match s.stage {
        Stage::Root => match reply {
            Ok(_) => enter_file(s),
            Err(failure) => JobView {
                fatal: Some(
                    fs_error_text(
                        failure.kind,
                        failure.detail,
                        s.output,
                        "create output folder"@,
                    ),
                ),
                stage: Stage::Done,
                ..s
            },
        },
        Stage::Folder => match reply {
            Ok(_) => {
                let step = first_step(s.used, s.dir(), s.file().filename, s.folder());
                plan_applied(s, step.0, step.1)
            },
            Err(failure) => file_done(
                s,
                Some(fs_error_text(failure.kind, failure.detail, s.dir(), "create folder"@)),
            ),
        },
        Stage::Probe(counter) => {
            let exists = match reply {
                Ok(answer) => answer,
                Err(_) => false,
            };
            let step = probe_step(s.used, s.dir(), s.file().filename, s.folder(), counter, exists);
            plan_applied(s, step.0, step.1)
        },
        Stage::Rename => match reply {
            Ok(_) => file_done(s, None),
            Err(_) => JobView { stage: Stage::CopyForMove, ..s },
        },
        Stage::CopyForMove => match reply {
            Ok(_) => JobView { stage: Stage::RemoveSource, ..s },
            Err(failure) => file_done(s, Some(operation_error(s, failure))),
        },
        Stage::RemoveSource => match reply {
            Ok(_) => file_done(s, None),
            Err(failure) => file_done(s, Some(operation_error(s, failure))),
        },
        Stage::Copy => match reply {
            Ok(_) => file_done(s, None),
            Err(failure) => file_done(s, Some(operation_error(s, failure))),
        },
        Stage::Done => s,
    }
}

/// A batch that is being organized.
pub struct OrganizeJob<'a> {
    files: &'a [AudioMetadata],
    output_folder: String,
    organize_by: String,
    operation: String,
    next: usize,
    stage: Stage,
    used_names: UsedNames,
    result: OrganizeResult,
    fatal: Option<String>,
    folder: String,
    dir: String,
    dest: String,
}

impl<'a> View for OrganizeJob<'a> {
    type V = JobView;

    closed spec fn view(&self) -> JobView {
        JobView {
            files: file_views(self.files@),
            output: self.output_folder@,
            mode: self.organize_by@,
            operation: self.operation@,
            next: self.next as nat,
            stage: self.stage,
            used: self.used_names@,
            result: self.result@,
            fatal: crate::text::opt_view(self.fatal),
            dest: self.dest@,
        }
    }
}

impl<'a> OrganizeJob<'a> {
    /// Whether the job is as every job is that was begun by
    /// `organize_files` and stepped.
    pub closed spec fn wf(&self) -> bool {
        &&& self@.inv()
        &&& !(self.stage is Root || self.stage is Done) ==> self.folder@ == self@.folder()
            && self.dir@ == self@.dir()
    }

    /// Turns to the file at `next`.
    fn enter(&mut self)
        requires
            old(self).next <= old(self).files.len(),
        ensures
            final(self)@ == enter_file(old(self)@),
            final(self).next < final(self).files.len() ==> {
                &&& final(self).folder@ == final(self)@.folder()
                &&& final(self).dir@ == final(self)@.dir()
            },
    {
        if self.next < self.files.len() {
            let files = self.files;
            self.folder = folder_of(&files[self.next], self.organize_by.as_str());
            self.dir = join(self.output_folder.as_str(), self.folder.as_str());
            self.stage = Stage::Folder;
        } else {
            self.stage = Stage::Done;
        }
    }

    /// Counts the current file as done, with its error if it failed.
    fn finish_file(&mut self, error: Option<String>)
        requires
            old(self).wf(),
            !(old(self).stage is Root || old(self).stage is Done),
        ensures
            final(self)@ == file_done(old(self)@, crate::text::opt_view(error)),
            final(self).wf(),
    {
        match error {
            Some(message) => {
                assert(texts(self.result.errors@.push(message)) == texts(
                    self.result.errors@,
                ).push(message@));
                self.result.error_count += 1;
                self.result.errors.push(message);
            },
            None => {
                self.result.success_count += 1;
            },
        }
        self.next += 1;
        self.enter();
    }

    /// Goes on after a step of resolving the current file's name, which
    /// has left its mark in the record of names already.
    fn apply(&mut self, plan: NamePlan)
        requires
            old(self).wf(),
            old(self).stage is Folder || old(self).stage is Probe,
        ensures
            final(self)@ == plan_applied(old(self)@, old(self)@.used, plan@),
            final(self).wf(),
    {
        match plan {
            NamePlan::Settled(name) => {
                self.dest = join(self.dir.as_str(), name.as_str());
                if same_text(self.operation.as_str(), "move") {
                    self.stage = Stage::Rename;
                } else if same_text(self.operation.as_str(), "copy") {
                    self.stage = Stage::Copy;
                } else {
                    let files = self.files;
                    let message = format_unknown_operation(
                        self.operation.as_str(),
                        files[self.next].path.as_str(),
                    );
                    self.finish_file(Some(message));
                }
            },
            NamePlan::Probe { path, counter } => {
                self.dest = path;
                self.stage = Stage::Probe(counter);
            },
            NamePlan::Exhausted => {
                let files = self.files;
                let message = format_no_name(
                    self.operation.as_str(),
                    files[self.next].path.as_str(),
                );
                self.finish_file(Some(message));
            },
        }
    }

    /// What the caller is to do next.
    pub fn action(&self) -> (r: FsAction)
        requires
            self.wf(),
        ensures
            r@ == action_spec(self@),
    {
        let files = self.files;
        match self.stage {
            Stage::Root => FsAction::CreateDirAll(self.output_folder.clone()),
            Stage::Folder => FsAction::CreateDirAll(self.dir.clone()),
            Stage::Probe(_) => FsAction::Exists(self.dest.clone()),
            Stage::Rename => FsAction::Rename {
                from: files[self.next].path.clone(),
                to: self.dest.clone(),
            },
            Stage::CopyForMove => FsAction::Copy {
                from: files[self.next].path.clone(),
                to: self.dest.clone(),
            },
            Stage::RemoveSource => FsAction::RemoveFile(files[self.next].path.clone()),
            Stage::Copy => FsAction::Copy {
                from: files[self.next].path.clone(),
                to: self.dest.clone(),
            },
            Stage::Done => FsAction::Finished,
        }
    }

    /// Takes the caller's report of the action that `action` asked for and
    /// goes on. `Ok` holds the answer where the question was whether a
    /// path exists, and has no meaning otherwise.
    pub fn step(&mut self, reply: &Result<bool, FsFailure>)
        requires
            old(self).wf(),
        ensures
            final(self)@ == step_spec(old(self)@, reply_view(*reply)),
            final(self).wf(),
    {
        let files = self.files;
        match self.stage {
            Stage::Root => match reply {
                Ok(_) => {
                    self.enter();
                },
                Err(failure) => {
                    self.fatal = Some(
                        format_fs_error(
                            failure,
                            self.output_folder.as_str(),
                            "create output folder",
                        ),
                    );
                    self.stage = Stage::Done;
                },
            },
            Stage::Folder => match reply {
                Ok(_) => {
                    let plan = generate_unique_filename(
                        self.dir.as_str(),
                        files[self.next].filename.as_str(),
                        &mut self.used_names,
                        self.folder.as_str(),
                    );
                    self.apply(plan);
                },
                Err(failure) => {
                    let message = format_fs_error(failure, self.dir.as_str(), "create folder");
                    self.finish_file(Some(message));
                },
            },
            Stage::Probe(counter) => {
                let exists = match reply {
                    Ok(answer) => *answer,
                    Err(_) => false,
                };
                let plan = resolve_probe(
                    self.dir.as_str(),
                    files[self.next].filename.as_str(),
                    &mut self.used_names,
                    self.folder.as_str(),
                    counter,
                    exists,
                );
                self.apply(plan);
            },
            Stage::Rename => match reply {
                Ok(_) => {
                    self.finish_file(None);
                },
                Err(_) => {
                    self.stage = Stage::CopyForMove;
                },
            },
            Stage::CopyForMove => match reply {
                Ok(_) => {
                    self.stage = Stage::RemoveSource;
                },
                Err(failure) => {
                    let message = format_fs_error(
                        failure,
                        files[self.next].path.as_str(),
                        self.operation.as_str(),
                    );
                    self.finish_file(Some(message));
                },
            },
            Stage::RemoveSource | Stage::Copy => match reply {
                Ok(_) => {
                    self.finish_file(None);
                },
                Err(failure) => {
                    let message = format_fs_error(
                        failure,
                        files[self.next].path.as_str(),
                        self.operation.as_str(),
                    );
                    self.finish_file(Some(message));
                },
            },
            Stage::Done => {},
        }
    }

    /// Whether nothing is left to do.
    pub fn is_finished(&self) -> (r: bool)
        ensures
            r == (self@.stage is Done),
    {
        match self.stage {
            Stage::Done => true,
            _ => false,
        }
    }

    /// The outcome of a finished job: the message of the failure that
    /// ended it, or the counts and the messages of the files that failed.
    /// A job that is not finished has no outcome yet.
    pub fn finish(self) -> (r: Option<Result<OrganizeResult, String>>)
        requires
            self.wf(),
        ensures
            match r {
                None => !(self@.stage is Done),
                Some(Err(message)) => self@.stage is Done && self@.fatal == Some(message@),
                Some(Ok(result)) => {
                    &&& self@.stage is Done
                    &&& self@.fatal is None
                    &&& result@ == self@.result
                    &&& result@.success_count + result@.error_count == self@.files.len()
                    &&& result@.errors.len() == result@.error_count
                    &&& result@.skipped_count == 0
                },
            },
    {
        match self.stage {
            Stage::Done => match self.fatal {
                Some(message) => Some(Err(message)),
                None => Some(Ok(self.result)),
            },
            _ => None,
        }
    }
}

/// Begins to organize a batch into `output_folder`, by the mode
/// `organize_by` and with the operation `operation`, which is `move` or
/// `copy`.
pub fn organize_files<'a>(
    files: &'a [AudioMetadata],
    output_folder: &str,
    organize_by: &str,
    operation: &str,
) -> (job: OrganizeJob<'a>)
    requires
        files.len() <= u32::MAX,
    ensures
        job@ == start_spec(file_views(files@), output_folder@, organize_by@, operation@),
        job.wf(),
{
    let result = OrganizeResult {
        success_count: 0,
        error_count: 0,
        skipped_count: 0,
        errors: Vec::new(),
    };
    assert(texts(result.errors@) == Seq::<Seq<char>>::empty());
    OrganizeJob {
        files,
        output_folder: output_folder.to_owned(),
        organize_by: organize_by.to_owned(),
        operation: operation.to_owned(),
        next: 0,
        stage: Stage::Root,
        used_names: UsedNames::new(),
        result,
        fatal: None,
        folder: String::new(),
        dir: String::new(),
        dest: String::new(),
    }
}

/// What holds of a job at its start holds after every step: the files
/// that are done are counted once each, as a success or as an error with
/// its message, and a job ends only when every file is done or the output
/// folder could not be created.
pub proof fn lemma_step_keeps_inv(s: JobView, reply: Result<bool, FailureView>)
    requires
        s.inv(),
    ensures
        step_spec(s, reply).inv(),
{
}

/// A job is sound at its start.
pub proof fn lemma_start_inv(
    files: Seq<MetadataView>,
    output: Seq<char>,
    mode: Seq<char>,
    operation: Seq<char>,
)
    requires
        files.len() <= u32::MAX,
    ensures
        start_spec(files, output, mode, operation).inv(),
{
}

/// A job that copies never asks for a source to be renamed or removed: the
/// only action that names a source is the copy of it.
pub proof fn lemma_copy_spares_sources(s: JobView)
    requires
        s.inv(),
        s.operation == "copy"@,
    ensures
        !(action_spec(s) is Rename),
        !(action_spec(s) is RemoveFile),
{
    reveal_strlit("copy");
    reveal_strlit("move");
    assert("copy"@[0] != "move"@[0]);
}

/// In a job that copies, a success is counted exactly when a copy is
/// reported to have gone well: one destination file for each success.
pub proof fn lemma_copy_counts(s: JobView, reply: Result<bool, FailureView>)
    requires
        s.inv(),
        s.operation == "copy"@,
    ensures
        step_spec(s, reply).result.success_count == s.result.success_count + if s.stage is Copy
            && reply is Ok {
            1int
        } else {
            0int
        },
{
    reveal_strlit("copy");
    reveal_strlit("move");
    assert("copy"@[0] != "move"@[0]);
}

/// A step moves on by at most one file, and an error is counted exactly
/// when a message is added.
pub proof fn lemma_step_accounts(s: JobView, reply: Result<bool, FailureView>)
    requires
        s.inv(),
    ensures
        s.next <= step_spec(s, reply).next <= s.next + 1,
        s.result.errors.is_prefix_of(step_spec(s, reply).result.errors),
        step_spec(s, reply).result.errors.len() - s.result.errors.len() == step_spec(
            s,
            reply,
        ).result.error_count - s.result.error_count,
{
    let t = step_spec(s, reply);
    lemma_step_keeps_inv(s, reply);
    if t.result.errors != s.result.errors {
        assert(t.result.errors.drop_last() == s.result.errors);
    }
}

/// Each message that a step adds names what failed: the folder of the
/// category where that could not be created, and else the path of the file
/// together with the operation that was asked for.
pub proof fn lemma_step_error_names_path(s: JobView, reply: Result<bool, FailureView>)
    requires
        s.inv(),
        step_spec(s, reply).result.errors.len() > s.result.errors.len(),
    ensures
        ({
            let message = step_spec(s, reply).result.errors.last();
            if s.stage is Folder && reply is Err {
                contains_seq(message, s.dir())
            } else {
                contains_seq(message, s.file().path) && contains_seq(message, s.operation)
            }
        }),
{
    let path = s.file().path;
    match reply {
        Err(failure) => {
            lemma_fs_error_names_path_and_operation(
                failure.kind,
                failure.detail,
                s.dir(),
                "create folder"@,
            );
            lemma_fs_error_names_path_and_operation(
                failure.kind,
                failure.detail,
                path,
                s.operation,
            );
        },
        Ok(_) => {},
    }
    lemma_holds_two("Unknown operation: Cannot "@, s.operation, " '"@, path, "'."@);
    lemma_holds_two("No free name left: Cannot "@, s.operation, " '"@, path, "'."@);
}

/// The message with which a job fails as a whole names the output folder
/// and what was tried.
pub proof fn lemma_fatal_names_output(s: JobView, reply: Result<bool, FailureView>)
    requires
        s.inv(),
        s.fatal is None,
        step_spec(s, reply).fatal is Some,
    ensures
        contains_seq(step_spec(s, reply).fatal.unwrap(), s.output),
        contains_seq(step_spec(s, reply).fatal.unwrap(), "create output folder"@),
{
    if let Err(failure) = reply {
        lemma_fs_error_names_path_and_operation(
            failure.kind,
            failure.detail,
            s.output,
            "create output folder"@,
        );
    }
}

/// The run of a job over the first `n` of a sequence of reports.
pub open spec fn run(s: JobView, replies: Seq<Result<bool, FailureView>>, n: nat) -> JobView
    decreases n,
{
    if n == 0 {
        s
    } else {
        step_spec(run(s, replies, (n - 1) as nat), replies[n - 1])
    }
}

/// Whatever is reported to a job, it stays sound, and its batch, its
/// folders and its operation stay what they were.
pub proof fn lemma_run_keeps(s: JobView, replies: Seq<Result<bool, FailureView>>, n: nat)
    requires
        s.inv(),
    ensures
        run(s, replies, n).inv(),
        run(s, replies, n).files == s.files,
        run(s, replies, n).output == s.output,
        run(s, replies, n).mode == s.mode,
        run(s, replies, n).operation == s.operation,
    decreases n,
{
    if n > 0 {
        lemma_run_keeps(s, replies, (n - 1) as nat);
        lemma_step_keeps_inv(run(s, replies, (n - 1) as nat), replies[n - 1]);
    }
}

/// A job that copies never comes to ask for a source to be renamed or
/// removed, whatever is reported to it.
pub proof fn lemma_copy_run_spares_sources(
    s: JobView,
    replies: Seq<Result<bool, FailureView>>,
    n: nat,
)
    requires
        s.inv(),
        s.operation == "copy"@,
    ensures
        !(action_spec(run(s, replies, n)) is Rename),
        !(action_spec(run(s, replies, n)) is RemoveFile),
{
    lemma_run_keeps(s, replies, n);
    lemma_copy_spares_sources(run(s, replies, n));
}

/// The number of copies that were reported done among the first `n`
/// reports to a job.
pub open spec fn copies_done(s: JobView, replies: Seq<Result<bool, FailureView>>, n: nat) -> nat
    decreases n,
{
    if n == 0 {
        0
    } else {
        copies_done(s, replies, (n - 1) as nat) + if run(s, replies, (n - 1) as nat).stage is Copy
            && replies[n - 1] is Ok {
            1nat
        } else {
            0nat
        }
    }
}

/// In a job that copies, the successes counted are the copies reported
/// done, one for one, whatever else is reported.
pub proof fn lemma_copy_run_counts(s: JobView, replies: Seq<Result<bool, FailureView>>, n: nat)
    requires
        s.inv(),
        s.operation == "copy"@,
    ensures
        run(s, replies, n).result.success_count == s.result.success_count + copies_done(
            s,
            replies,
            n,
        ),
    decreases n,
{
    if n > 0 {
        lemma_copy_run_counts(s, replies, (n - 1) as nat);
        lemma_run_keeps(s, replies, (n - 1) as nat);
        lemma_copy_counts(run(s, replies, (n - 1) as nat), replies[n - 1]);
    }
}

/// A job that has come to its end without failing as a whole has counted
/// every file of its batch once, as a success or as an error with its
/// message.
pub proof fn lemma_finished_run_accounts(
    s: JobView,
    replies: Seq<Result<bool, FailureView>>,
    n: nat,
)
    requires
        s.inv(),
        run(s, replies, n).stage is Done,
        run(s, replies, n).fatal is None,
    ensures
        run(s, replies, n).result.success_count + run(s, replies, n).result.error_count
            == s.files.len(),
        run(s, replies, n).result.errors.len() == run(s, replies, n).result.error_count,
{
    lemma_run_keeps(s, replies, n);
}

} // verus!
