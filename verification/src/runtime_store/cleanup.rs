//! Removing the artifacts of an epoch, one file operation at a time.

use super::install::{FileReport, FileWork, FileWorkView};
use super::{
    is_leftover, numbered, remove_regular_file, remove_socket_artifact, Lookup, RuntimeConfigStore,
};
use crate::error::{Error, ErrorView};
use crate::path;
use crate::platform::Platform;
use crate::runtime_store;
use crate::text;
use vstd::prelude::*;
use vstd::string::*;

verus! {

/// What every step of a cleanup knows.
#[derive(Debug, PartialEq, Eq)]
pub struct Cleanup {
    pub platform: Platform,
    pub epoch: u64,
    pub dir: String,
    pub runtime: String,
    pub pid: String,
    pub socket: String,
}

/// The content of a [`Cleanup`].
pub struct CleanupView {
    pub platform: Platform,
    pub epoch: u64,
    pub dir: Seq<char>,
    pub runtime: Seq<char>,
    pub pid: Seq<char>,
    pub socket: Seq<char>,
}

impl View for Cleanup {
    type V = CleanupView;

    open spec fn view(&self) -> CleanupView {
        CleanupView {
            platform: self.platform,
            epoch: self.epoch,
            dir: self.dir@,
            runtime: self.runtime@,
            pid: self.pid@,
            socket: self.socket@,
        }
    }
}

/// A step of a cleanup.
#[derive(Debug, PartialEq, Eq)]
pub enum CleanupStep {
    LookRuntime,
    RemoveRuntime,
    LookPid,
    RemovePid,
    LookSocket,
    RemoveSocket,
    OpenDirectory,
    NextEntry,
    /// A leftover is looked up.
    LookEntry { path: String },
    RemoveEntry { path: String },
    Sync,
}

/// The content of a [`CleanupStep`].
pub enum CleanupStepView {
    LookRuntime,
    RemoveRuntime,
    LookPid,
    RemovePid,
    LookSocket,
    RemoveSocket,
    OpenDirectory,
    NextEntry,
    LookEntry { path: Seq<char> },
    RemoveEntry { path: Seq<char> },
    Sync,
}

impl View for CleanupStep {
    type V = CleanupStepView;

    open spec fn view(&self) -> CleanupStepView {
        match *self {
            CleanupStep::LookRuntime => CleanupStepView::LookRuntime,
            CleanupStep::RemoveRuntime => CleanupStepView::RemoveRuntime,
            CleanupStep::LookPid => CleanupStepView::LookPid,
            CleanupStep::RemovePid => CleanupStepView::RemovePid,
            CleanupStep::LookSocket => CleanupStepView::LookSocket,
            CleanupStep::RemoveSocket => CleanupStepView::RemoveSocket,
            CleanupStep::OpenDirectory => CleanupStepView::OpenDirectory,
            CleanupStep::NextEntry => CleanupStepView::NextEntry,
            CleanupStep::LookEntry { path } => CleanupStepView::LookEntry { path: path@ },
            CleanupStep::RemoveEntry { path } => CleanupStepView::RemoveEntry { path: path@ },
            CleanupStep::Sync => CleanupStepView::Sync,
        }
    }
}

/// Where a cleanup stands after a step.
#[derive(Debug, PartialEq, Eq)]
pub enum CleanupProgress {
    Continue(CleanupStep),
    End(Result<(), Error>),
}

/// The content of a [`CleanupProgress`].
pub enum CleanupProgressView {
    Continue(CleanupStepView),
    End(Result<(), ErrorView>),
}

impl View for CleanupProgress {
    type V = CleanupProgressView;

    open spec fn view(&self) -> CleanupProgressView {
        match *self {
            CleanupProgress::Continue(step) => CleanupProgressView::Continue(step@),
            CleanupProgress::End(Ok(_)) => CleanupProgressView::End(Ok(())),
            CleanupProgress::End(Err(error)) => CleanupProgressView::End(Err(error@)),
        }
    }
}

/// What looking up an entry that may be removed leads to: the first step if it
/// is there, the second one if it is not.
pub open spec fn removal(
    path: Seq<char>,
    removable: spec_fn(runtime_store::EntryMetadata) -> bool,
    lookup: Lookup,
    remove: CleanupStepView,
    skip: CleanupStepView,
) -> CleanupProgressView {
    match lookup {
        Lookup::Found(metadata) => if removable(metadata) {
            CleanupProgressView::Continue(remove)
        } else {
            CleanupProgressView::End(Err(ErrorView::UnsafeRuntimeArtifact(path)))
        },
        Lookup::NotFound => CleanupProgressView::Continue(skip),
        Lookup::Failed(message) => CleanupProgressView::End(Err(ErrorView::Io(message@))),
    }
}

impl CleanupView {
    /// The file operation that a step needs.
    pub open spec fn work(self, step: CleanupStepView) -> FileWorkView {
        match step {
            CleanupStepView::LookRuntime => FileWorkView::LookUp { path: self.runtime },
            CleanupStepView::RemoveRuntime => FileWorkView::Remove { path: self.runtime },
            CleanupStepView::LookPid => FileWorkView::LookUp { path: self.pid },
            CleanupStepView::RemovePid => FileWorkView::Remove { path: self.pid },
            CleanupStepView::LookSocket => FileWorkView::LookUp { path: self.socket },
            CleanupStepView::RemoveSocket => FileWorkView::Remove { path: self.socket },
            CleanupStepView::OpenDirectory => FileWorkView::OpenDirectory,
            CleanupStepView::NextEntry => FileWorkView::NextEntry,
            CleanupStepView::LookEntry { path } => FileWorkView::LookUp { path },
            CleanupStepView::RemoveEntry { path } => FileWorkView::Remove { path },
            CleanupStepView::Sync => FileWorkView::Sync,
        }
    }

    /// The step that follows a step that was done, other than the last one.
    pub open spec fn after(self, step: CleanupStepView) -> CleanupStepView {
        match step {
            CleanupStepView::RemoveRuntime => CleanupStepView::LookPid,
            CleanupStepView::RemovePid => CleanupStepView::LookSocket,
            CleanupStepView::RemoveSocket => CleanupStepView::OpenDirectory,
            CleanupStepView::OpenDirectory => CleanupStepView::NextEntry,
            CleanupStepView::RemoveEntry { .. } => CleanupStepView::NextEntry,
            _ => step,
        }
    }

    /// What a directory entry leads to: a leftover of the epoch is removed,
    /// anything else is passed over.
    pub open spec fn entered(self, name: Option<Seq<char>>, path: Option<Seq<char>>) -> CleanupProgressView {
        match name {
            Some(name) => if runtime_store::leftover(name, self.epoch) {
                match path {
                    Some(path) => CleanupProgressView::Continue(CleanupStepView::LookEntry { path }),
                    None => CleanupProgressView::End(
                        Err(ErrorView::UnsafeRuntimeArtifact(self.dir)),
                    ),
                }
            } else {
                CleanupProgressView::Continue(CleanupStepView::NextEntry)
            },
            None => CleanupProgressView::Continue(CleanupStepView::NextEntry),
        }
    }

    /// Where the cleanup stands after a step; a report on something else changes
    /// nothing.
    pub open spec fn advanced(self, step: CleanupStepView, report: FileReport) -> CleanupProgressView {
        match (step, report) {
            (CleanupStepView::LookRuntime, FileReport::LookedUp { lookup, .. }) => removal(
                self.runtime,
                |metadata: runtime_store::EntryMetadata| metadata.regular(),
                lookup,
                CleanupStepView::RemoveRuntime,
                CleanupStepView::LookPid,
            ),
            (CleanupStepView::LookPid, FileReport::LookedUp { lookup, .. }) => removal(
                self.pid,
                |metadata: runtime_store::EntryMetadata| metadata.regular(),
                lookup,
                CleanupStepView::RemovePid,
                CleanupStepView::LookSocket,
            ),
            (CleanupStepView::LookSocket, FileReport::LookedUp { lookup, .. }) => removal(
                self.socket,
                |metadata: runtime_store::EntryMetadata| metadata.socket_like(self.platform),
                lookup,
                CleanupStepView::RemoveSocket,
                CleanupStepView::OpenDirectory,
            ),
            (CleanupStepView::LookEntry { path }, FileReport::LookedUp { lookup, .. }) => removal(
                path,
                |metadata: runtime_store::EntryMetadata| metadata.regular(),
                lookup,
                CleanupStepView::RemoveEntry { path },
                CleanupStepView::NextEntry,
            ),
            (CleanupStepView::NextEntry, FileReport::Entry { name, path }) => self.entered(
                crate::state::text_of(name),
                crate::state::text_of(path),
            ),
            (CleanupStepView::NextEntry, FileReport::NoEntry) => CleanupProgressView::Continue(
                CleanupStepView::Sync,
            ),
            (CleanupStepView::Sync, FileReport::Done) => CleanupProgressView::End(Ok(())),
            (CleanupStepView::RemoveRuntime, FileReport::Done) => CleanupProgressView::Continue(
                self.after(step),
            ),
            (CleanupStepView::RemovePid, FileReport::Done) => CleanupProgressView::Continue(
                self.after(step),
            ),
            (CleanupStepView::RemoveSocket, FileReport::Done) => CleanupProgressView::Continue(
                self.after(step),
            ),
            (CleanupStepView::OpenDirectory, FileReport::Done) => CleanupProgressView::Continue(
                self.after(step),
            ),
            (CleanupStepView::RemoveEntry { .. }, FileReport::Done) => CleanupProgressView::Continue(
                self.after(step),
            ),
            (CleanupStepView::RemoveRuntime, FileReport::Failed { message }) =>
                CleanupProgressView::End(Err(ErrorView::Io(message@))),
            (CleanupStepView::RemovePid, FileReport::Failed { message }) =>
                CleanupProgressView::End(Err(ErrorView::Io(message@))),
            (CleanupStepView::RemoveSocket, FileReport::Failed { message }) =>
                CleanupProgressView::End(Err(ErrorView::Io(message@))),
            (CleanupStepView::RemoveEntry { .. }, FileReport::Failed { message }) =>
                CleanupProgressView::End(Err(ErrorView::Io(message@))),
            (CleanupStepView::OpenDirectory, FileReport::Failed { message }) =>
                CleanupProgressView::End(Err(ErrorView::Io(message@))),
            (CleanupStepView::NextEntry, FileReport::Failed { message }) =>
                CleanupProgressView::End(Err(ErrorView::Io(message@))),
            (CleanupStepView::Sync, FileReport::Failed { message }) => CleanupProgressView::End(
                Err(ErrorView::Io(message@)),
            ),
            _ => CleanupProgressView::Continue(step),
        }
    }
}

fn go_on(decision: Result<bool, Error>, remove: CleanupStep, skip: CleanupStep) -> (res:
    CleanupProgress)
    ensures
        res@ == match decision {
            Ok(true) => CleanupProgressView::Continue(remove@),
            Ok(false) => CleanupProgressView::Continue(skip@),
            Err(error) => CleanupProgressView::End(Err(error@)),
        },
{
    match decision {
        Ok(there) => if there {
            CleanupProgress::Continue(remove)
        } else {
            CleanupProgress::Continue(skip)
        },
        Err(error) => CleanupProgress::End(Err(error)),
    }
}

impl Cleanup {
    /// The file operation that a step needs.
    pub fn work<'a>(&'a self, step: &'a CleanupStep) -> (res: FileWork<'a>)
        ensures
            res@ == self@.work(step@),
    {
        match step {
            CleanupStep::LookRuntime => FileWork::LookUp { path: self.runtime.as_str() },
            CleanupStep::RemoveRuntime => FileWork::Remove { path: self.runtime.as_str() },
            CleanupStep::LookPid => FileWork::LookUp { path: self.pid.as_str() },
            CleanupStep::RemovePid => FileWork::Remove { path: self.pid.as_str() },
            CleanupStep::LookSocket => FileWork::LookUp { path: self.socket.as_str() },
            CleanupStep::RemoveSocket => FileWork::Remove { path: self.socket.as_str() },
            CleanupStep::OpenDirectory => FileWork::OpenDirectory,
            CleanupStep::NextEntry => FileWork::NextEntry,
            CleanupStep::LookEntry { path } => FileWork::LookUp { path: path.as_str() },
            CleanupStep::RemoveEntry { path } => FileWork::Remove { path: path.as_str() },
            CleanupStep::Sync => FileWork::Sync,
        }
    }

    fn entered(&self, name: Option<String>, path: Option<String>) -> (res: CleanupProgress)
        ensures
            res@ == self@.entered(crate::state::text_of(name), crate::state::text_of(path)),
    {
        match name {
            Some(name) => if is_leftover(name.as_str(), self.epoch) {
                match path {
                    Some(path) => CleanupProgress::Continue(CleanupStep::LookEntry { path }),
                    None => CleanupProgress::End(
                        Err(Error::UnsafeRuntimeArtifact(self.dir.clone())),
                    ),
                }
            } else {
                CleanupProgress::Continue(CleanupStep::NextEntry)
            },
            None => CleanupProgress::Continue(CleanupStep::NextEntry),
        }
    }

    /// Takes the report on a step.
    pub fn advance(&self, step: CleanupStep, report: FileReport) -> (res: CleanupProgress)
        ensures
            res@ == self@.advanced(step@, report),
    {
        match (step, report) {
            (CleanupStep::LookRuntime, FileReport::LookedUp { lookup, .. }) => go_on(
                remove_regular_file(self.runtime.as_str(), lookup),
                CleanupStep::RemoveRuntime,
                CleanupStep::LookPid,
            ),
            (CleanupStep::LookPid, FileReport::LookedUp { lookup, .. }) => go_on(
                remove_regular_file(self.pid.as_str(), lookup),
                CleanupStep::RemovePid,
                CleanupStep::LookSocket,
            ),
            (CleanupStep::LookSocket, FileReport::LookedUp { lookup, .. }) => go_on(
                remove_socket_artifact(self.platform, self.socket.as_str(), lookup),
                CleanupStep::RemoveSocket,
                CleanupStep::OpenDirectory,
            ),
            (CleanupStep::LookEntry { path }, FileReport::LookedUp { lookup, .. }) => {
                let decision: Result<bool, Error> = remove_regular_file(path.as_str(), lookup);
                go_on(decision, CleanupStep::RemoveEntry { path }, CleanupStep::NextEntry)
            },
            (CleanupStep::NextEntry, FileReport::Entry { name, path }) => self.entered(name, path),
            (CleanupStep::NextEntry, FileReport::NoEntry) => CleanupProgress::Continue(
                CleanupStep::Sync,
            ),
            (CleanupStep::Sync, FileReport::Done) => CleanupProgress::End(Ok(())),
            (CleanupStep::RemoveRuntime, FileReport::Done) => CleanupProgress::Continue(
                CleanupStep::LookPid,
            ),
            (CleanupStep::RemovePid, FileReport::Done) => CleanupProgress::Continue(
                CleanupStep::LookSocket,
            ),
            (CleanupStep::RemoveSocket, FileReport::Done) => CleanupProgress::Continue(
                CleanupStep::OpenDirectory,
            ),
            (CleanupStep::OpenDirectory, FileReport::Done) => CleanupProgress::Continue(
                CleanupStep::NextEntry,
            ),
            (CleanupStep::RemoveEntry { .. }, FileReport::Done) => CleanupProgress::Continue(
                CleanupStep::NextEntry,
            ),
            (CleanupStep::RemoveRuntime, FileReport::Failed { message }) => CleanupProgress::End(
                Err(Error::Io(message)),
            ),
            (CleanupStep::RemovePid, FileReport::Failed { message }) => CleanupProgress::End(
                Err(Error::Io(message)),
            ),
            (CleanupStep::RemoveSocket, FileReport::Failed { message }) => CleanupProgress::End(
                Err(Error::Io(message)),
            ),
            (CleanupStep::RemoveEntry { .. }, FileReport::Failed { message }) => {
                CleanupProgress::End(Err(Error::Io(message)))
            },
            (CleanupStep::OpenDirectory, FileReport::Failed { message }) => CleanupProgress::End(
                Err(Error::Io(message)),
            ),
            (CleanupStep::NextEntry, FileReport::Failed { message }) => CleanupProgress::End(
                Err(Error::Io(message)),
            ),
            (CleanupStep::Sync, FileReport::Failed { message }) => CleanupProgress::End(
                Err(Error::Io(message)),
            ),
            (step, _) => CleanupProgress::Continue(step),
        }
    }
}

impl CleanupView {
    /// What stands before every name in the directory.
    pub open spec fn lead(self) -> Seq<char> {
        self.runtime.take(self.runtime.len() - runtime_store::config_name(self.epoch).len())
    }

    /// The path of `name` in the directory.
    pub open spec fn at(self, name: Seq<char>) -> Seq<char> {
        self.lead() + name
    }

    /// Whether the stable artifacts stand in the directory.
    pub open spec fn stands(self) -> bool {
        &&& self.runtime == self.at(runtime_store::config_name(self.epoch))
        &&& self.pid == self.at(runtime_store::pid_name(self.epoch))
        &&& self.socket == self.at(runtime_store::socket_name(self.epoch))
    }
}

impl RuntimeConfigStore {
    /// Whether `cleanup` is for an epoch of this store: the paths of the stable
    /// artifacts are in its directory, and have one beginning.
    pub open spec fn cleans(&self, cleanup: CleanupView, platform: Platform, epoch: u64) -> bool {
        &&& cleanup.platform == platform
        &&& cleanup.epoch == epoch
        &&& cleanup.dir == self.dir@
        &&& path::under(self.dir@, runtime_store::config_name(epoch), cleanup.runtime)
        &&& path::under(self.dir@, runtime_store::pid_name(epoch), cleanup.pid)
        &&& path::under(self.dir@, runtime_store::socket_name(epoch), cleanup.socket)
        &&& cleanup.stands()
    }

    /// Begins to remove what an epoch has left: its stable artifacts first, then
    /// the leftovers that the directory lists.
    pub fn cleanup_epoch(&self, platform: Platform, epoch: u64) -> (res: (Cleanup, CleanupStep))
        ensures
            self.cleans(res.0@, platform, epoch),
            res.1@ == CleanupStepView::LookRuntime,
    {
        let runtime: String = self.runtime_path(epoch);
        let config_name: String = numbered("config-", epoch, ".yaml");
        let pid_name: String = numbered("core-", epoch, ".pid");
        let socket_name: String = numbered("core-", epoch, ".sock");
        let lead: String = match text::without_suffix(runtime.as_str(), config_name.as_str()) {
            Some(lead) => lead,
            None => "".to_owned(),
        };
        let pid: String = text::concat(lead.as_str(), pid_name.as_str());
        let socket: String = text::concat(lead.as_str(), socket_name.as_str());
        proof {
            let name = runtime_store::config_name(epoch);
            runtime_store::stable_names_are_plain(epoch);
            assert(runtime@ =~= lead@ + name);
            path::a_directory_has_one_beginning(self.dir@, lead@, name, pid_name@);
            path::a_directory_has_one_beginning(self.dir@, lead@, name, socket_name@);
        }
        let cleanup = Cleanup { platform, epoch, dir: self.dir.clone(), runtime, pid, socket };
        assert(cleanup@.lead() =~= lead@);
        (cleanup, CleanupStep::LookRuntime)
    }
}

} // verus!
