//! Writing, installing and putting aside runtime configs, one file operation at
//! a time.

use super::{
    backup_file_name, installed_commit, staged_file_name, validate_absent_regular_target,
    validate_existing_regular_target, Lookup, RuntimeCommitDurability, RuntimeConfigBackup,
    RuntimeConfigCommit, RuntimeConfigStore, StagedRuntimeConfig,
};
use crate::error::{Error, ErrorView};
use crate::path;
use crate::runtime_store;
use crate::state;
use crate::text;
use vstd::prelude::*;
use vstd::string::*;

verus! {

/// What an installation is to achieve.
#[derive(Debug, Clone, Copy, PartialEq, Eq, Structural)]
pub enum InstallGoal {
    /// The contents are written under a name of their own.
    Stage,
    /// A staged config becomes the first runtime config of its epoch.
    CommitNew,
    /// A staged config takes the place of the runtime config of its epoch.
    CommitReplace,
    /// The contents of the runtime config are kept under another name.
    Backup,
}

/// What every step of an installation knows.
#[derive(Debug, PartialEq, Eq)]
pub struct Installation {
    pub goal: InstallGoal,
    pub epoch: u64,
    /// Where the contents are staged.
    pub staging: String,
    /// Whether that is a place where this store stages configs of the epoch.
    pub staged_here: bool,
    /// Where the staged config goes.
    pub destination: String,
}

/// The content of an [`Installation`].
pub struct InstallationView {
    pub goal: InstallGoal,
    pub epoch: u64,
    pub staging: Seq<char>,
    pub staged_here: bool,
    pub destination: Seq<char>,
}

impl View for Installation {
    type V = InstallationView;

    open spec fn view(&self) -> InstallationView {
        InstallationView {
            goal: self.goal,
            epoch: self.epoch,
            staging: self.staging@,
            staged_here: self.staged_here,
            destination: self.destination@,
        }
    }
}

/// A step of an installation.
#[derive(Debug, PartialEq, Eq)]
pub enum InstallStep {
    /// The file whose contents are used is looked up.
    LookSource { source: String },
    /// Its contents are read.
    ReadSource { source: String },
    /// The place for staging is looked up.
    LookStaging { contents: Vec<u8> },
    /// The staging file is created.
    Create { contents: Vec<u8> },
    /// The contents are written and synchronised.
    Write { contents: Vec<u8> },
    /// The staged file is looked up.
    LookStaged,
    /// The destination is looked up.
    LookDestination,
    /// The staged file goes to its destination.
    Install,
    /// The directory is synchronised.
    Sync,
    /// The staged file is given up, whatever comes of removing it.
    Abandon { error: Error },
}

/// The content of an [`InstallStep`].
pub enum InstallStepView {
    LookSource { source: Seq<char> },
    ReadSource { source: Seq<char> },
    LookStaging { contents: Seq<u8> },
    Create { contents: Seq<u8> },
    Write { contents: Seq<u8> },
    LookStaged,
    LookDestination,
    Install,
    Sync,
    Abandon { error: ErrorView },
}

impl View for InstallStep {
    type V = InstallStepView;

    open spec fn view(&self) -> InstallStepView {
        match *self {
            InstallStep::LookSource { source } => InstallStepView::LookSource { source: source@ },
            InstallStep::ReadSource { source } => InstallStepView::ReadSource { source: source@ },
            InstallStep::LookStaging { contents } => InstallStepView::LookStaging {
                contents: contents@,
            },
            InstallStep::Create { contents } => InstallStepView::Create { contents: contents@ },
            InstallStep::Write { contents } => InstallStepView::Write { contents: contents@ },
            InstallStep::LookStaged => InstallStepView::LookStaged,
            InstallStep::LookDestination => InstallStepView::LookDestination,
            InstallStep::Install => InstallStepView::Install,
            InstallStep::Sync => InstallStepView::Sync,
            InstallStep::Abandon { error } => InstallStepView::Abandon { error: error@ },
        }
    }
}

/// A file operation.
#[derive(Debug, PartialEq, Eq)]
pub enum FileWork<'a> {
    /// Look up an entry without following links.
    LookUp { path: &'a str },
    Read { path: &'a str },
    /// Create a file that must not exist, for the owner alone.
    Create { path: &'a str },
    /// Write the contents of a created file and synchronise it.
    Write { path: &'a str, contents: &'a Vec<u8> },
    /// Give a file another name, which must not exist.
    Move { from: &'a str, to: &'a str },
    /// Let a file take the place of another one at once.
    Replace { from: &'a str, to: &'a str },
    /// Synchronise the directory.
    Sync,
    Remove { path: &'a str },
    /// Open the directory to list it.
    OpenDirectory,
    /// Get the next entry of the directory.
    NextEntry,
}

/// The content of a [`FileWork`].
pub enum FileWorkView {
    LookUp { path: Seq<char> },
    Read { path: Seq<char> },
    Create { path: Seq<char> },
    Write { path: Seq<char>, contents: Seq<u8> },
    Move { from: Seq<char>, to: Seq<char> },
    Replace { from: Seq<char>, to: Seq<char> },
    Sync,
    Remove { path: Seq<char> },
    OpenDirectory,
    NextEntry,
}

impl<'a> View for FileWork<'a> {
    type V = FileWorkView;

    open spec fn view(&self) -> FileWorkView {
        match *self {
            FileWork::LookUp { path } => FileWorkView::LookUp { path: path@ },
            FileWork::Read { path } => FileWorkView::Read { path: path@ },
            FileWork::Create { path } => FileWorkView::Create { path: path@ },
            FileWork::Write { path, contents } => FileWorkView::Write {
                path: path@,
                contents: contents@,
            },
            FileWork::Move { from, to } => FileWorkView::Move { from: from@, to: to@ },
            FileWork::Replace { from, to } => FileWorkView::Replace { from: from@, to: to@ },
            FileWork::Sync => FileWorkView::Sync,
            FileWork::Remove { path } => FileWorkView::Remove { path: path@ },
            FileWork::OpenDirectory => FileWorkView::OpenDirectory,
            FileWork::NextEntry => FileWorkView::NextEntry,
        }
    }
}

/// What came of a file operation.
#[derive(Debug, PartialEq, Eq)]
pub enum FileReport {
    /// An entry was looked up; `missing` is the system's message for one that is
    /// not there.
    LookedUp { lookup: Lookup, missing: String },
    Contents { contents: Vec<u8> },
    Done,
    Failed { message: String },
    /// A directory entry: its name and its path, where they are text.
    Entry { name: Option<String>, path: Option<String> },
    /// There are no more directory entries.
    NoEntry,
}

/// What an installation ends in.
#[derive(Debug, PartialEq, Eq)]
pub enum Installed {
    Staged(StagedRuntimeConfig),
    /// The first runtime config of an epoch is in place.
    New(String),
    Replaced(RuntimeConfigCommit),
    BackedUp(RuntimeConfigBackup),
}

/// The content of an [`Installed`].
pub enum InstalledView {
    Staged { path: Seq<char> },
    New { path: Seq<char> },
    Replaced { path: Seq<char>, warning: Option<Seq<char>> },
    BackedUp { path: Seq<char>, epoch: u64 },
}

impl View for Installed {
    type V = InstalledView;

    open spec fn view(&self) -> InstalledView {
        match *self {
            Installed::Staged(staged) => InstalledView::Staged { path: staged.path@ },
            Installed::New(path) => InstalledView::New { path: path@ },
            Installed::Replaced(commit) => InstalledView::Replaced {
                path: commit.path@,
                warning: match commit.durability {
                    RuntimeCommitDurability::Durable => None,
                    RuntimeCommitDurability::Uncertain(warning) => Some(warning@),
                },
            },
            Installed::BackedUp(backup) => InstalledView::BackedUp {
                path: backup.path@,
                epoch: backup.epoch,
            },
        }
    }
}

/// Where an installation stands after a step.
#[derive(Debug, PartialEq, Eq)]
pub enum InstallProgress {
    Continue(InstallStep),
    End(Result<Installed, Error>),
}

/// The content of an [`InstallProgress`].
pub enum InstallProgressView {
    Continue(InstallStepView),
    End(Result<InstalledView, ErrorView>),
}

impl View for InstallProgress {
    type V = InstallProgressView;

    open spec fn view(&self) -> InstallProgressView {
        match *self {
            InstallProgress::Continue(step) => InstallProgressView::Continue(step@),
            InstallProgress::End(Ok(installed)) => InstallProgressView::End(Ok(installed@)),
            InstallProgress::End(Err(error)) => InstallProgressView::End(Err(error@)),
        }
    }
}

impl InstallationView {
    /// The file operation that a step needs.
    pub open spec fn work(self, step: InstallStepView) -> FileWorkView {
        match step {
            InstallStepView::LookSource { source } => FileWorkView::LookUp { path: source },
            InstallStepView::ReadSource { source } => FileWorkView::Read { path: source },
            InstallStepView::LookStaging { .. } => FileWorkView::LookUp { path: self.staging },
            InstallStepView::Create { .. } => FileWorkView::Create { path: self.staging },
            InstallStepView::Write { contents } => FileWorkView::Write {
                path: self.staging,
                contents,
            },
            InstallStepView::LookStaged => FileWorkView::LookUp { path: self.staging },
            InstallStepView::LookDestination => FileWorkView::LookUp { path: self.destination },
            InstallStepView::Install => if self.goal == InstallGoal::CommitReplace {
                FileWorkView::Replace { from: self.staging, to: self.destination }
            } else {
                FileWorkView::Move { from: self.staging, to: self.destination }
            },
            InstallStepView::Sync => FileWorkView::Sync,
            InstallStepView::Abandon { .. } => FileWorkView::Remove { path: self.staging },
        }
    }

    /// What follows once the contents are staged.
    pub open spec fn staged(self) -> InstallProgressView {
        match self.goal {
            InstallGoal::Stage => InstallProgressView::End(
                Ok(InstalledView::Staged { path: self.staging }),
            ),
            InstallGoal::Backup => InstallProgressView::Continue(InstallStepView::LookDestination),
            _ => InstallProgressView::Continue(self.commit_step()),
        }
    }

    /// The first step of committing a staged config: one that was not staged
    /// here is given up.
    pub open spec fn commit_step(self) -> InstallStepView {
        if self.staged_here {
            InstallStepView::LookStaged
        } else {
            InstallStepView::Abandon { error: ErrorView::UnsafeRuntimeArtifact(self.staging) }
        }
    }

    /// The end of an installation whose file is in place, given what came of
    /// synchronising the directory: only a replacement goes on without it.
    pub open spec fn settled(self, failure: Option<Seq<char>>) -> Result<InstalledView, ErrorView> {
        match self.goal {
            InstallGoal::CommitReplace => Ok(
                InstalledView::Replaced {
                    path: self.destination,
                    warning: match failure {
                        Some(message) => Some(
                            "runtime config was atomically installed, but parent-directory synchronization failed: "@
                                + message,
                        ),
                        None => None,
                    },
                },
            ),
            goal => match failure {
                Some(message) => Err(ErrorView::Io(message)),
                None => Ok(
                    match goal {
                        InstallGoal::Backup => InstalledView::BackedUp {
                            path: self.destination,
                            epoch: self.epoch,
                        },
                        _ => InstalledView::New { path: self.destination },
                    },
                ),
            },
        }
    }

    /// Where the installation stands after a step; a report on something else
    /// changes nothing.
    pub open spec fn advanced(self, step: InstallStepView, report: FileReport) -> InstallProgressView {
        match (step, report) {
            (
                InstallStepView::LookSource { source },
                FileReport::LookedUp { lookup, missing },
            ) => match runtime_store::existing_fault(source, lookup, missing@) {
                Some(error) => InstallProgressView::End(Err(error)),
                None => InstallProgressView::Continue(InstallStepView::ReadSource { source }),
            },
            (
                InstallStepView::ReadSource { .. },
                FileReport::Contents { contents },
            ) => InstallProgressView::Continue(
                InstallStepView::LookStaging { contents: contents@ },
            ),
            (
                InstallStepView::ReadSource { .. },
                FileReport::Failed { message },
            ) => InstallProgressView::End(Err(ErrorView::Io(message@))),
            (
                InstallStepView::LookStaging { contents },
                FileReport::LookedUp { lookup, .. },
            ) => match runtime_store::absent_fault(self.staging, lookup) {
                Some(error) => InstallProgressView::End(Err(error)),
                None => InstallProgressView::Continue(InstallStepView::Create { contents }),
            },
            (
                InstallStepView::Create { contents },
                FileReport::Done,
            ) => InstallProgressView::Continue(InstallStepView::Write { contents }),
            (
                InstallStepView::Create { .. },
                FileReport::Failed { message },
            ) => InstallProgressView::End(Err(ErrorView::Io(message@))),
            (InstallStepView::Write { .. }, FileReport::Done) => self.staged(),
            (
                InstallStepView::Write { .. },
                FileReport::Failed { message },
            ) => InstallProgressView::Continue(
                InstallStepView::Abandon { error: ErrorView::Io(message@) },
            ),
            (
                InstallStepView::LookStaged,
                FileReport::LookedUp { lookup, missing },
            ) => InstallProgressView::Continue(
                match runtime_store::existing_fault(self.staging, lookup, missing@) {
                    Some(error) => InstallStepView::Abandon { error },
                    None => InstallStepView::LookDestination,
                },
            ),
            (
                InstallStepView::LookDestination,
                FileReport::LookedUp { lookup, missing },
            ) => InstallProgressView::Continue(
                match self.destination_fault(lookup, missing@) {
                    Some(error) => InstallStepView::Abandon { error },
                    None => InstallStepView::Install,
                },
            ),
            (InstallStepView::Install, FileReport::Done) => InstallProgressView::Continue(
                InstallStepView::Sync,
            ),
            (
                InstallStepView::Install,
                FileReport::Failed { message },
            ) => InstallProgressView::Continue(
                InstallStepView::Abandon { error: ErrorView::Io(message@) },
            ),
            (InstallStepView::Sync, FileReport::Done) => InstallProgressView::End(
                self.settled(None),
            ),
            (InstallStepView::Sync, FileReport::Failed { message }) => InstallProgressView::End(
                self.settled(Some(message@)),
            ),
            (InstallStepView::Abandon { error }, FileReport::Done) => InstallProgressView::End(
                Err(error),
            ),
            (
                InstallStepView::Abandon { error },
                FileReport::Failed { .. },
            ) => InstallProgressView::End(Err(error)),
            _ => InstallProgressView::Continue(step),
        }
    }

    /// What is wrong with the destination: a replacement needs a file there,
    /// anything else needs none.
    pub open spec fn destination_fault(self, lookup: Lookup, missing: Seq<char>) -> Option<
        ErrorView,
    > {
        if self.goal == InstallGoal::CommitReplace {
            runtime_store::existing_fault(self.destination, lookup, missing)
        } else {
            runtime_store::absent_fault(self.destination, lookup)
        }
    }
}

impl Installation {
    /// The file operation that a step needs.
    pub fn work<'a>(&'a self, step: &'a InstallStep) -> (res: FileWork<'a>)
        ensures
            res@ == self@.work(step@),
    {
        match step {
            InstallStep::LookSource { source } => FileWork::LookUp { path: source.as_str() },
            InstallStep::ReadSource { source } => FileWork::Read { path: source.as_str() },
            InstallStep::LookStaging { .. } => FileWork::LookUp { path: self.staging.as_str() },
            InstallStep::Create { .. } => FileWork::Create { path: self.staging.as_str() },
            InstallStep::Write { contents } => FileWork::Write {
                path: self.staging.as_str(),
                contents,
            },
            InstallStep::LookStaged => FileWork::LookUp { path: self.staging.as_str() },
            InstallStep::LookDestination => FileWork::LookUp { path: self.destination.as_str() },
            InstallStep::Install => if self.goal == InstallGoal::CommitReplace {
                FileWork::Replace { from: self.staging.as_str(), to: self.destination.as_str() }
            } else {
                FileWork::Move { from: self.staging.as_str(), to: self.destination.as_str() }
            },
            InstallStep::Sync => FileWork::Sync,
            InstallStep::Abandon { .. } => FileWork::Remove { path: self.staging.as_str() },
        }
    }

    fn commit_step(&self) -> (res: InstallStep)
        ensures
            res@ == self@.commit_step(),
    {
        if self.staged_here {
            InstallStep::LookStaged
        } else {
            InstallStep::Abandon { error: Error::UnsafeRuntimeArtifact(self.staging.clone()) }
        }
    }

    fn staged(&self) -> (res: InstallProgress)
        ensures
            res@ == self@.staged(),
    {
        match self.goal {
            InstallGoal::Stage => InstallProgress::End(
                Ok(Installed::Staged(StagedRuntimeConfig { path: self.staging.clone() })),
            ),
            InstallGoal::Backup => InstallProgress::Continue(InstallStep::LookDestination),
            InstallGoal::CommitNew => InstallProgress::Continue(self.commit_step()),
            InstallGoal::CommitReplace => InstallProgress::Continue(self.commit_step()),
        }
    }

    fn settled(&self, synced: Result<(), String>) -> (res: InstallProgress)
        ensures
            res@ == InstallProgressView::End(
                self@.settled(
                    match synced {
                        Ok(_) => None,
                        Err(message) => Some(message@),
                    },
                ),
            ),
    {
        if self.goal == InstallGoal::CommitReplace {
            return InstallProgress::End(
                Ok(Installed::Replaced(installed_commit(self.destination.clone(), synced))),
            );
        }
        match synced {
            Ok(_) => InstallProgress::End(
                Ok(
                    if self.goal == InstallGoal::Backup {
                        Installed::BackedUp(
                            RuntimeConfigBackup {
                                path: self.destination.clone(),
                                epoch: self.epoch,
                            },
                        )
                    } else {
                        Installed::New(self.destination.clone())
                    },
                ),
            ),
            Err(message) => InstallProgress::End(Err(Error::Io(message))),
        }
    }

    fn check_destination(&self, lookup: Lookup, missing: String) -> (res: Result<(), Error>)
        ensures
            runtime_store::faults_as(res, self@.destination_fault(lookup, missing@)),
    {
        if self.goal == InstallGoal::CommitReplace {
            validate_existing_regular_target(self.destination.as_str(), lookup, missing)
        } else {
            validate_absent_regular_target(self.destination.as_str(), lookup)
        }
    }

    /// Takes the report on a step.
    pub fn advance(&self, step: InstallStep, report: FileReport) -> (res: InstallProgress)
        ensures
            res@ == self@.advanced(step@, report),
    {
        match (step, report) {
            (InstallStep::LookSource { source }, FileReport::LookedUp { lookup, missing }) => {
                match validate_existing_regular_target(source.as_str(), lookup, missing) {
                    Ok(_) => InstallProgress::Continue(InstallStep::ReadSource { source }),
                    Err(error) => InstallProgress::End(Err(error)),
                }
            },
            (InstallStep::ReadSource { .. }, FileReport::Contents { contents }) => {
                InstallProgress::Continue(InstallStep::LookStaging { contents })
            },
            (InstallStep::ReadSource { .. }, FileReport::Failed { message }) => {
                InstallProgress::End(Err(Error::Io(message)))
            },
            (InstallStep::LookStaging { contents }, FileReport::LookedUp { lookup, .. }) => {
                match validate_absent_regular_target(self.staging.as_str(), lookup) {
                    Ok(_) => InstallProgress::Continue(InstallStep::Create { contents }),
                    Err(error) => InstallProgress::End(Err(error)),
                }
            },
            (InstallStep::Create { contents }, FileReport::Done) => {
                InstallProgress::Continue(InstallStep::Write { contents })
            },
            (InstallStep::Create { .. }, FileReport::Failed { message }) => {
                InstallProgress::End(Err(Error::Io(message)))
            },
            (InstallStep::Write { .. }, FileReport::Done) => self.staged(),
            (InstallStep::Write { .. }, FileReport::Failed { message }) => {
                InstallProgress::Continue(InstallStep::Abandon { error: Error::Io(message) })
            },
            (InstallStep::LookStaged, FileReport::LookedUp { lookup, missing }) => {
                match validate_existing_regular_target(self.staging.as_str(), lookup, missing) {
                    Ok(_) => InstallProgress::Continue(InstallStep::LookDestination),
                    Err(error) => InstallProgress::Continue(InstallStep::Abandon { error }),
                }
            },
            (InstallStep::LookDestination, FileReport::LookedUp { lookup, missing }) => {
                match self.check_destination(lookup, missing) {
                    Ok(_) => InstallProgress::Continue(InstallStep::Install),
                    Err(error) => InstallProgress::Continue(InstallStep::Abandon { error }),
                }
            },
            (InstallStep::Install, FileReport::Done) => InstallProgress::Continue(
                InstallStep::Sync,
            ),
            (InstallStep::Install, FileReport::Failed { message }) => InstallProgress::Continue(
                InstallStep::Abandon { error: Error::Io(message) },
            ),
            (InstallStep::Sync, FileReport::Done) => self.settled(Ok(())),
            (InstallStep::Sync, FileReport::Failed { message }) => self.settled(Err(message)),
            (InstallStep::Abandon { error }, FileReport::Done) => InstallProgress::End(Err(error)),
            (InstallStep::Abandon { error }, FileReport::Failed { .. }) => InstallProgress::End(
                Err(error),
            ),
            (step, _) => InstallProgress::Continue(step),
        }
    }
}

impl RuntimeConfigStore {
    fn staging_path(&self, epoch: u64, process: u32, counter: u64) -> (res: String)
        ensures
            path::under(self.dir@, runtime_store::staged_name(epoch, process, counter), res@),
    {
        proof {
            runtime_store::made_names_are_plain(epoch, 0, process, counter);
        }
        let name: String = staged_file_name(epoch, process, counter);
        path::join(self.dir.as_str(), name.as_str())
    }

    fn stages(&self, staging: &String, epoch: u64) -> (res: bool)
        ensures
            self.accepts(staging@, epoch, res),
    {
        self.validate_staged(&StagedRuntimeConfig { path: staging.clone() }, epoch).is_ok()
    }

    /// Begins to write a config for an epoch under a name of its own.
    pub fn stage(&self, epoch: u64, contents: Vec<u8>, process: u32, counter: u64) -> (res: (
        Installation,
        InstallStep,
    ))
        ensures
            res.0.goal == InstallGoal::Stage,
            res.0.epoch == epoch,
            path::under(
                self.dir@,
                runtime_store::staged_name(epoch, process, counter),
                res.0.staging@,
            ),
            self.accepts(res.0.staging@, epoch, res.0.staged_here),
            path::under(self.dir@, runtime_store::config_name(epoch), res.0.destination@),
            res.1@ == (InstallStepView::LookStaging { contents: contents@ }),
    {
        let staging: String = self.staging_path(epoch, process, counter);
        let staged_here: bool = self.stages(&staging, epoch);
        let destination: String = self.runtime_path(epoch);
        (
            Installation { goal: InstallGoal::Stage, epoch, staging, staged_here, destination },
            InstallStep::LookStaging { contents },
        )
    }

    /// Begins to install a staged config as the first one of its epoch.
    pub fn commit_new(&self, staged: StagedRuntimeConfig, epoch: u64) -> (res: (
        Installation,
        InstallStep,
    ))
        ensures
            res.0.goal == InstallGoal::CommitNew,
            res.0.epoch == epoch,
            res.0.staging == staged.path,
            self.accepts(staged.path@, epoch, res.0.staged_here),
            path::under(self.dir@, runtime_store::config_name(epoch), res.0.destination@),
            res.1@ == res.0@.commit_step(),
    {
        let staged_here: bool = self.stages(&staged.path, epoch);
        let destination: String = self.runtime_path(epoch);
        let run = Installation {
            goal: InstallGoal::CommitNew,
            epoch,
            staging: staged.path,
            staged_here,
            destination,
        };
        let step: InstallStep = run.commit_step();
        (run, step)
    }

    /// Begins to replace the runtime config of an epoch by bytes that were
    /// staged and checked before.
    pub fn commit_replace(&self, staged: StagedRuntimeConfig, epoch: u64) -> (res: (
        Installation,
        InstallStep,
    ))
        ensures
            res.0.goal == InstallGoal::CommitReplace,
            res.0.epoch == epoch,
            res.0.staging == staged.path,
            self.accepts(staged.path@, epoch, res.0.staged_here),
            path::under(self.dir@, runtime_store::config_name(epoch), res.0.destination@),
            res.1@ == res.0@.commit_step(),
    {
        let staged_here: bool = self.stages(&staged.path, epoch);
        let destination: String = self.runtime_path(epoch);
        let run = Installation {
            goal: InstallGoal::CommitReplace,
            epoch,
            staging: staged.path,
            staged_here,
            destination,
        };
        let step: InstallStep = run.commit_step();
        (run, step)
    }

    /// Begins to replace the runtime config of an epoch.
    pub fn replace(&self, epoch: u64, contents: Vec<u8>, process: u32, counter: u64) -> (res: (
        Installation,
        InstallStep,
    ))
        ensures
            self.replaces(res.0@, epoch, process, counter),
            res.1@ == (InstallStepView::LookStaging { contents: contents@ }),
    {
        let staging: String = self.staging_path(epoch, process, counter);
        let staged_here: bool = self.stages(&staging, epoch);
        let destination: String = self.runtime_path(epoch);
        (
            Installation {
                goal: InstallGoal::CommitReplace,
                epoch,
                staging,
                staged_here,
                destination,
            },
            InstallStep::LookStaging { contents },
        )
    }

    /// Whether `run` replaces the runtime config of an epoch of this store.
    pub open spec fn replaces(
        &self,
        run: InstallationView,
        epoch: u64,
        process: u32,
        counter: u64,
    ) -> bool {
        &&& run.goal == InstallGoal::CommitReplace
        &&& run.epoch == epoch
        &&& path::under(
            self.dir@,
            runtime_store::staged_name(epoch, process, counter),
            run.staging,
        )
        &&& self.accepts(run.staging, epoch, run.staged_here)
        &&& path::under(self.dir@, runtime_store::config_name(epoch), run.destination)
    }

    /// Whether `run`, from `step` on, puts aside the runtime config of an epoch
    /// of this store.
    pub open spec fn backs_up(
        &self,
        run: InstallationView,
        step: InstallStepView,
        epoch: u64,
        generation: u64,
        process: u32,
        counter: u64,
    ) -> bool {
        &&& run.goal == InstallGoal::Backup
        &&& run.epoch == epoch
        &&& path::under(
            self.dir@,
            runtime_store::staged_name(epoch, process, counter),
            run.staging,
        )
        &&& self.accepts(run.staging, epoch, run.staged_here)
        &&& path::under(
            self.dir@,
            runtime_store::backup_name(epoch, generation),
            run.destination,
        )
        &&& step matches InstallStepView::LookSource { source } && path::under(
            self.dir@,
            runtime_store::config_name(epoch),
            source,
        )
    }

    /// Begins to put aside the runtime config of an epoch before `generation`
    /// comes in.
    pub fn backup(&self, epoch: u64, generation: u64, process: u32, counter: u64) -> (res: (
        Installation,
        InstallStep,
    ))
        ensures
            self.backs_up(res.0@, res.1@, epoch, generation, process, counter),
    {
        proof {
            runtime_store::made_names_are_plain(epoch, generation, process, counter);
        }
        let staging: String = self.staging_path(epoch, process, counter);
        let staged_here: bool = self.stages(&staging, epoch);
        let name: String = backup_file_name(epoch, generation);
        let destination: String = path::join(self.dir.as_str(), name.as_str());
        (
            Installation { goal: InstallGoal::Backup, epoch, staging, staged_here, destination },
            InstallStep::LookSource { source: self.runtime_path(epoch) },
        )
    }

    /// Begins to replace the runtime config of an epoch by its backup.
    pub fn restore(&self, backup: &RuntimeConfigBackup, process: u32, counter: u64) -> (res: (
        Installation,
        InstallStep,
    ))
        ensures
            self.replaces(res.0@, backup.epoch, process, counter),
            res.1@ == (InstallStepView::LookSource { source: backup.path@ }),
    {
        let staging: String = self.staging_path(backup.epoch, process, counter);
        let staged_here: bool = self.stages(&staging, backup.epoch);
        let destination: String = self.runtime_path(backup.epoch);
        (
            Installation {
                goal: InstallGoal::CommitReplace,
                epoch: backup.epoch,
                staging,
                staged_here,
                destination,
            },
            InstallStep::LookSource { source: backup.path.clone() },
        )
    }
}

} // verus!
