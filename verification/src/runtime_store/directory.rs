//! What a cleanup does to the entries of a directory.

use super::cleanup::{CleanupProgressView, CleanupStepView, CleanupView};
use super::install::{FileReport, FileWorkView};
use super::{EntryMetadata, Lookup, RuntimeConfigStore};
use crate::error::ErrorView;
use crate::platform::Platform;
use crate::runtime_store;
use crate::text;
use vstd::prelude::*;

verus! {

/// An entry of a directory: what the file system tells of it, and what it holds.
pub struct Entry {
    pub metadata: EntryMetadata,
    pub contents: Seq<u8>,
}

/// The entries of a disk by their paths, and the names that were listed since
/// the directory was opened.
pub struct Disk {
    pub entries: Map<Seq<char>, Entry>,
    pub listed: Set<Seq<char>>,
}

/// What a disk did during a run: the report on each operation, and the disk
/// after it.
pub struct Change {
    pub report: FileReport,
    pub after: Disk,
}

impl CleanupView {
    /// Whether `name` is that of an artifact of the epoch.
    pub open spec fn owns(self, name: Seq<char>) -> bool {
        name == runtime_store::config_name(self.epoch) || name == runtime_store::pid_name(
            self.epoch,
        ) || name == runtime_store::socket_name(self.epoch) || runtime_store::leftover(
            name,
            self.epoch,
        )
    }

    /// Whether an artifact of the epoch stands at `path`.
    pub open spec fn artifact(self, path: Seq<char>) -> bool {
        exists|name: Seq<char>| #[trigger] self.at(name) == path && self.owns(name)
    }

    /// Whether an entry may be removed: the one at the path of the socket if it
    /// can be a socket, any other if it is an ordinary file.
    pub open spec fn removable(self, path: Seq<char>, entry: Entry) -> bool {
        if path == self.socket {
            entry.metadata.socket_like(self.platform)
        } else {
            entry.metadata.regular()
        }
    }

    /// What a disk may do and report when it is asked for `work`: it tells what
    /// it holds, removes what it is told to, and lists every entry that is still
    /// there before it says that there are no more. An operation that fails
    /// changes nothing.
    pub open spec fn performed(
        self,
        disk: Disk,
        work: FileWorkView,
        report: FileReport,
        after: Disk,
    ) -> bool {
        match (work, report) {
            (FileWorkView::LookUp { path }, FileReport::LookedUp { lookup, .. }) => {
                &&& after == disk
                &&& lookup matches Lookup::Found(metadata) ==> disk.entries.contains_key(path)
                    && metadata == disk.entries[path].metadata
                &&& lookup is NotFound ==> !disk.entries.contains_key(path)
            },
            (FileWorkView::Remove { path }, FileReport::Done) => after == (Disk {
                entries: disk.entries.remove(path),
                listed: disk.listed,
            }),
            (FileWorkView::OpenDirectory, FileReport::Done) => after == (Disk {
                entries: disk.entries,
                listed: Set::empty(),
            }),
            (FileWorkView::NextEntry, FileReport::Entry { name: Some(name), path }) => {
                &&& after == (Disk { entries: disk.entries, listed: disk.listed.insert(name@) })
                &&& path matches Some(path) ==> path@ == self.at(name@)
            },
            (FileWorkView::NextEntry, FileReport::Entry { name: None, .. }) => after == disk,
            (FileWorkView::NextEntry, FileReport::NoEntry) => {
                &&& after == disk
                &&& forall|name: Seq<char>|
                    disk.entries.contains_key(#[trigger] self.at(name))
                        ==> disk.listed.contains(name)
            },
            _ => after == disk && (report is Failed || work is Sync),
        }
    }

    /// Whether the run goes from `step` to the end `result` on a disk that does
    /// what `changes` say.
    pub open spec fn clears(
        self,
        step: CleanupStepView,
        disk: Disk,
        changes: Seq<Change>,
        result: Result<(), ErrorView>,
    ) -> bool
        decreases changes.len(),
    {
        changes.len() > 0 && self.performed(
            disk,
            self.work(step),
            changes[0].report,
            changes[0].after,
        ) && match self.advanced(step, changes[0].report) {
            CleanupProgressView::Continue(next) => self.clears(
                next,
                changes[0].after,
                changes.skip(1),
                result,
            ),
            CleanupProgressView::End(end) => changes.len() == 1 && end == result,
        }
    }

    /// What is gone by the time of a step.
    pub open spec fn cleared(self, step: CleanupStepView, disk: Disk) -> bool {
        let runtime = !disk.entries.contains_key(self.runtime);
        let pid = !disk.entries.contains_key(self.pid);
        let socket = !disk.entries.contains_key(self.socket);
        match step {
            CleanupStepView::LookRuntime => true,
            CleanupStepView::RemoveRuntime => true,
            CleanupStepView::LookPid => runtime,
            CleanupStepView::RemovePid => runtime,
            CleanupStepView::LookSocket => runtime && pid,
            CleanupStepView::RemoveSocket => runtime && pid,
            CleanupStepView::OpenDirectory => runtime && pid && socket,
            CleanupStepView::NextEntry => runtime && pid && socket && forall|name: Seq<char>|
                disk.listed.contains(name) && runtime_store::leftover(name, self.epoch)
                    ==> !disk.entries.contains_key(#[trigger] self.at(name)),
            CleanupStepView::LookEntry { path } => runtime && pid && socket && forall|
                name: Seq<char>,
            |
                disk.listed.contains(name) && runtime_store::leftover(name, self.epoch)
                    && self.at(name) != path ==> !disk.entries.contains_key(
                    #[trigger] self.at(name),
                ),
            CleanupStepView::RemoveEntry { path } => runtime && pid && socket && forall|
                name: Seq<char>,
            |
                disk.listed.contains(name) && runtime_store::leftover(name, self.epoch)
                    && self.at(name) != path ==> !disk.entries.contains_key(
                    #[trigger] self.at(name),
                ),
            CleanupStepView::Sync => runtime && pid && socket && forall|name: Seq<char>|
                runtime_store::leftover(name, self.epoch) ==> !disk.entries.contains_key(
                    #[trigger] self.at(name),
                ),
        }
    }

    /// What a step goes for: an artifact, and to remove it one that may be
    /// removed.
    pub open spec fn aims(self, step: CleanupStepView, disk: Disk) -> bool {
        let fit = |path: Seq<char>|
            disk.entries.contains_key(path) ==> self.removable(path, disk.entries[path]);
        match step {
            CleanupStepView::RemoveRuntime => fit(self.runtime),
            CleanupStepView::RemovePid => fit(self.pid),
            CleanupStepView::RemoveSocket => fit(self.socket),
            CleanupStepView::LookEntry { path } => path != self.socket && self.artifact(
                path,
            ),
            CleanupStepView::RemoveEntry { path } => path != self.socket && self.artifact(
                path,
            ) && fit(path),
            _ => true,
        }
    }
}

/// Two names in the directory have two paths.
proof fn lemma_one_name(cleanup: CleanupView, a: Seq<char>, b: Seq<char>)
    requires
        cleanup.at(a) == cleanup.at(b),
    ensures
        a == b,
{
    assert(cleanup.at(a).skip(cleanup.lead().len() as int) =~= a);
    assert(cleanup.at(b).skip(cleanup.lead().len() as int) =~= b);
}

/// A leftover is none of the stable artifacts.
proof fn lemma_leftover_is_not_stable(epoch: u64, name: Seq<char>)
    requires
        runtime_store::leftover(name, epoch),
    ensures
        name != runtime_store::config_name(epoch),
        name != runtime_store::pid_name(epoch),
        name != runtime_store::socket_name(epoch),
{
    reveal_strlit("core-");
    reveal_strlit("config-");
    reveal_strlit(".config-");
    reveal_strlit(".pid");
    reveal_strlit(".sock");
    reveal_strlit(".yaml");
    reveal_strlit(".yaml.backup-");
    reveal_strlit(".yaml.tmp-");
    reveal_strlit(".pid.tmp-");
    let digits = text::decimal(epoch as nat);
    let backup = runtime_store::backup_prefix(epoch);
    let staged = runtime_store::staged_prefix(epoch);
    let temp = runtime_store::pid_temp_prefix(epoch);
    if text::occurs_at(name, backup, 0) {
        assert(name.subrange(0, backup.len() as int)[0] == 'c');
        assert(name.subrange(0, backup.len() as int)[1] == 'o');
        assert(name.subrange(0, backup.len() as int)[2] == 'n');
        assert(runtime_store::pid_name(epoch)[2] == 'r');
        assert(runtime_store::socket_name(epoch)[2] == 'r');
    } else if text::occurs_at(name, staged, 0) {
        assert(name.subrange(0, staged.len() as int)[0] == '.');
    } else {
        assert(name.subrange(0, temp.len() as int)[2] == 'r');
        assert(runtime_store::config_name(epoch)[2] == 'n');
        let dot = 5 + digits.len() as int;
        assert(name.subrange(0, temp.len() as int)[dot + 1] == 'p');
        assert(runtime_store::socket_name(epoch)[dot + 1] == 's');
    }
}

/// A listed entry that is gone for is an artifact, and not the socket.
proof fn lemma_listed_artifact(cleanup: CleanupView, name: Seq<char>)
    requires
        cleanup.stands(),
        runtime_store::leftover(name, cleanup.epoch),
    ensures
        cleanup.at(name) != cleanup.socket,
        cleanup.artifact(cleanup.at(name)),
{
    lemma_leftover_is_not_stable(cleanup.epoch, name);
    if cleanup.at(name) == cleanup.socket {
        lemma_one_name(
            cleanup,
            name,
            runtime_store::socket_name(cleanup.epoch),
        );
    }
    assert(cleanup.owns(name));
}

/// The paths of the stable artifacts are three.
proof fn lemma_stable_paths(cleanup: CleanupView)
    requires
        cleanup.stands(),
    ensures
        cleanup.artifact(cleanup.runtime),
        cleanup.artifact(cleanup.pid),
        cleanup.artifact(cleanup.socket),
        cleanup.runtime != cleanup.socket,
        cleanup.pid != cleanup.socket,
{
    let epoch = cleanup.epoch;
    reveal_strlit("core-");
    reveal_strlit("config-");
    reveal_strlit(".pid");
    reveal_strlit(".sock");
    let digits = text::decimal(epoch as nat);
    assert(cleanup.owns(runtime_store::config_name(epoch)));
    assert(cleanup.owns(runtime_store::pid_name(epoch)));
    assert(cleanup.owns(runtime_store::socket_name(epoch)));
    let dot = 5 + digits.len() as int;
    assert(runtime_store::pid_name(epoch)[dot + 1] == 'p');
    assert(runtime_store::socket_name(epoch)[dot + 1] == 's');
    assert(runtime_store::config_name(epoch)[2] == 'n');
    assert(runtime_store::socket_name(epoch)[2] == 'r');
    if cleanup.runtime == cleanup.socket {
        lemma_one_name(
            cleanup,
            runtime_store::config_name(epoch),
            runtime_store::socket_name(epoch),
        );
    }
    if cleanup.pid == cleanup.socket {
        lemma_one_name(
            cleanup,
            runtime_store::pid_name(epoch),
            runtime_store::socket_name(epoch),
        );
    }
}

proof fn lemma_step(
    cleanup: CleanupView,
    step: CleanupStepView,
    disk: Disk,
    change: Change,
)
    requires
        cleanup.stands(),
        cleanup.cleared(step, disk),
        cleanup.aims(step, disk),
        cleanup.performed(disk, cleanup.work(step), change.report, change.after),
    ensures
        match cleanup.advanced(step, change.report) {
            CleanupProgressView::Continue(next) => cleanup.cleared(next, change.after)
                && cleanup.aims(next, change.after),
            CleanupProgressView::End(Ok(_)) => cleanup.cleared(
                CleanupStepView::Sync,
                change.after,
            ),
            CleanupProgressView::End(Err(_)) => true,
        },
        forall|path: Seq<char>| #[trigger]
            change.after.entries.contains_key(path) ==> disk.entries.contains_key(path)
                && change.after.entries[path] == disk.entries[path],
        forall|path: Seq<char>|
            disk.entries.contains_key(path) && !#[trigger] change.after.entries.contains_key(path)
                ==> cleanup.artifact(path) && cleanup.removable(
                path,
                disk.entries[path],
            ),
{
    lemma_stable_paths(cleanup);
    match (step, change.report) {
        (CleanupStepView::NextEntry, FileReport::Entry { name: Some(name), .. }) => {
            if runtime_store::leftover(name@, cleanup.epoch) {
                lemma_listed_artifact(cleanup, name@);
            }
        },
        _ => {},
    }
}

/// A cleanup that succeeds leaves exactly the entries that are no artifacts of
/// its epoch, as they were.
pub proof fn a_clean_epoch_has_no_artifacts(
    store: RuntimeConfigStore,
    platform: Platform,
    epoch: u64,
    cleanup: CleanupView,
    disk: Disk,
    changes: Seq<Change>,
)
    requires
        store.cleans(cleanup, platform, epoch),
        cleanup.clears(CleanupStepView::LookRuntime, disk, changes, Ok(())),
    ensures
        forall|path: Seq<char>| #[trigger]
            changes.last().after.entries.contains_key(path) <==> disk.entries.contains_key(path)
                && !cleanup.artifact(path),
        forall|path: Seq<char>| #[trigger]
            changes.last().after.entries.contains_key(path) ==> changes.last().after.entries[path]
                == disk.entries[path],
{
    let end = changes.last().after;
    lemma_clear(cleanup, CleanupStepView::LookRuntime, disk, changes, Ok(()));
    assert forall|path: Seq<char>| #[trigger]
        end.entries.contains_key(path) implies !cleanup.artifact(path) by {
        if cleanup.artifact(path) {
            let name = choose|name: Seq<char>| #[trigger]
                cleanup.at(name) == path && cleanup.owns(name);
            assert(!end.entries.contains_key(cleanup.at(name)));
        }
    }
}

/// Whatever a cleanup ends in, it makes and changes no entry, and removes none
/// but the artifacts of its epoch: ordinary files, and the socket.
pub proof fn a_cleanup_removes_artifacts_only(
    store: RuntimeConfigStore,
    platform: Platform,
    epoch: u64,
    cleanup: CleanupView,
    disk: Disk,
    changes: Seq<Change>,
    result: Result<(), ErrorView>,
)
    requires
        store.cleans(cleanup, platform, epoch),
        cleanup.clears(CleanupStepView::LookRuntime, disk, changes, result),
    ensures
        forall|path: Seq<char>| #[trigger]
            changes.last().after.entries.contains_key(path) ==> disk.entries.contains_key(path)
                && changes.last().after.entries[path] == disk.entries[path],
        forall|path: Seq<char>|
            disk.entries.contains_key(path)
                && !#[trigger] changes.last().after.entries.contains_key(path) ==> cleanup.artifact(
                path,
            ) && cleanup.removable(path, disk.entries[path]),
{
    lemma_clear(cleanup, CleanupStepView::LookRuntime, disk, changes, result);
}

proof fn lemma_clear(
    cleanup: CleanupView,
    step: CleanupStepView,
    disk: Disk,
    changes: Seq<Change>,
    result: Result<(), ErrorView>,
)
    requires
        cleanup.stands(),
        cleanup.cleared(step, disk),
        cleanup.aims(step, disk),
        cleanup.clears(step, disk, changes, result),
    ensures
        result is Ok ==> cleanup.cleared(
            CleanupStepView::Sync,
            changes.last().after,
        ),
        forall|path: Seq<char>| #[trigger]
            changes.last().after.entries.contains_key(path) ==> disk.entries.contains_key(path)
                && changes.last().after.entries[path] == disk.entries[path],
        forall|path: Seq<char>|
            disk.entries.contains_key(path)
                && !#[trigger] changes.last().after.entries.contains_key(path) ==> cleanup.artifact(
                path,
            ) && cleanup.removable(path, disk.entries[path]),
    decreases changes.len(),
{
    lemma_step(cleanup, step, disk, changes[0]);
    if let CleanupProgressView::Continue(next) = cleanup.advanced(step, changes[0].report) {
        let rest = changes.skip(1);
        let middle = changes[0].after;
        assert(cleanup.clears(next, middle, rest, result));
        lemma_clear(cleanup, next, middle, rest, result);
        assert(rest.last() == changes.last());
    }
}

/// Whether the disk reports no fault: no operation fails, and every entry that
/// is listed has a path.
pub open spec fn faultless(changes: Seq<Change>) -> bool {
    forall|i: int|
        0 <= i < changes.len() ==> match (#[trigger] changes[i]).report {
            FileReport::Failed { .. } => false,
            FileReport::LookedUp { lookup, .. } => !(lookup is Failed),
            FileReport::Entry { path, .. } => path is Some,
            _ => true,
        }
}

/// Whether everything that stands at the path of an artifact may be removed.
pub open spec fn clearable(cleanup: CleanupView, disk: Disk) -> bool {
    forall|path: Seq<char>| #[trigger]
        disk.entries.contains_key(path) && cleanup.artifact(path) ==> cleanup.removable(
            path,
            disk.entries[path],
        )
}

proof fn lemma_no_fault(
    cleanup: CleanupView,
    step: CleanupStepView,
    disk: Disk,
    changes: Seq<Change>,
    result: Result<(), ErrorView>,
)
    requires
        cleanup.stands(),
        clearable(cleanup, disk),
        cleanup.cleared(step, disk),
        cleanup.aims(step, disk),
        cleanup.clears(step, disk, changes, result),
        faultless(changes),
    ensures
        result is Ok,
    decreases changes.len(),
{
    lemma_step(cleanup, step, disk, changes[0]);
    lemma_stable_paths(cleanup);
    let middle = changes[0].after;
    match cleanup.advanced(step, changes[0].report) {
        CleanupProgressView::Continue(next) => {
            let rest = changes.skip(1);
            assert(cleanup.clears(next, middle, rest, result));
            assert forall|i: int| 0 <= i < rest.len() implies match (#[trigger] rest[i]).report {
                FileReport::Failed { .. } => false,
                FileReport::LookedUp { lookup, .. } => !(lookup is Failed),
                FileReport::Entry { path, .. } => path is Some,
                _ => true,
            } by {
                assert(rest[i] == changes[i + 1]);
            }
            lemma_no_fault(cleanup, next, middle, rest, result);
        },
        CleanupProgressView::End(_) => {},
    }
}

/// A cleanup succeeds where no operation fails and nothing else than an ordinary
/// file, or the socket, stands in the place of an artifact.
pub proof fn a_cleanup_succeeds_without_a_fault(
    store: RuntimeConfigStore,
    platform: Platform,
    epoch: u64,
    cleanup: CleanupView,
    disk: Disk,
    changes: Seq<Change>,
    result: Result<(), ErrorView>,
)
    requires
        store.cleans(cleanup, platform, epoch),
        clearable(cleanup, disk),
        cleanup.clears(CleanupStepView::LookRuntime, disk, changes, result),
        faultless(changes),
    ensures
        result is Ok,
{
    lemma_no_fault(cleanup, CleanupStepView::LookRuntime, disk, changes, result);
}

/// To clean up an epoch that is clean changes no entry, whatever it ends in, and
/// succeeds where no operation fails.
pub proof fn a_second_cleanup_changes_nothing(
    store: RuntimeConfigStore,
    platform: Platform,
    epoch: u64,
    cleanup: CleanupView,
    disk: Disk,
    first: Seq<Change>,
    second: Seq<Change>,
    result: Result<(), ErrorView>,
)
    requires
        store.cleans(cleanup, platform, epoch),
        cleanup.clears(CleanupStepView::LookRuntime, disk, first, Ok(())),
        cleanup.clears(
            CleanupStepView::LookRuntime,
            first.last().after,
            second,
            result,
        ),
    ensures
        second.last().after.entries =~= first.last().after.entries,
        faultless(second) ==> result is Ok,
{
    let clean = first.last().after;
    a_clean_epoch_has_no_artifacts(store, platform, epoch, cleanup, disk, first);
    a_cleanup_removes_artifacts_only(store, platform, epoch, cleanup, clean, second, result);
    assert forall|path: Seq<char>| #[trigger]
        clean.entries.contains_key(path) implies second.last().after.entries.contains_key(path) by {
        assert(!cleanup.artifact(path));
    }
    if faultless(second) {
        assert(clearable(cleanup, clean));
        a_cleanup_succeeds_without_a_fault(store, platform, epoch, cleanup, clean, second, result);
    }
}

/// Whether `name` is `lead`, the number of `epoch`, a dot and more.
spec fn begins(name: Seq<char>, lead: Seq<char>, epoch: u64) -> bool {
    let digits = text::decimal(epoch as nat);
    &&& lead.len() + digits.len() < name.len()
    &&& forall|i: int| 0 <= i < lead.len() ==> name[i] == #[trigger] lead[i]
    &&& forall|i: int| 0 <= i < digits.len() ==> name[lead.len() + i] == #[trigger] digits[i]
    &&& name[(lead.len() + digits.len()) as int] == '.'
}

proof fn lemma_one_number(name: Seq<char>, lead: Seq<char>, a: u64, b: u64)
    requires
        begins(name, lead, a),
        begins(name, lead, b),
    ensures
        a == b,
{
    let first = text::decimal(a as nat);
    let second = text::decimal(b as nat);
    text::lemma_decimal_value(a as nat);
    text::lemma_decimal_value(b as nat);
    if first.len() < second.len() {
        assert(text::is_digit(second[first.len() as int]));
    } else if second.len() < first.len() {
        assert(text::is_digit(first[second.len() as int]));
    } else {
        assert forall|i: int| 0 <= i < first.len() implies first[i] == second[i] by {
            assert(name[lead.len() + i] == first[i]);
        }
        assert(first =~= second);
    }
}

proof fn lemma_begins(
    name: Seq<char>,
    whole: Seq<char>,
    lead: Seq<char>,
    epoch: u64,
    tail: Seq<char>,
)
    requires
        text::occurs_at(name, whole, 0),
        whole == lead + text::decimal(epoch as nat) + tail,
        tail.len() > 0,
        tail[0] == '.',
    ensures
        begins(name, lead, epoch),
{
    let digits = text::decimal(epoch as nat);
    let part = name.subrange(0, whole.len() as int);
    assert forall|i: int| 0 <= i < lead.len() implies name[i] == #[trigger] lead[i] by {
        assert(part[i] == whole[i]);
    }
    assert forall|i: int| 0 <= i < digits.len() implies name[lead.len() + i]
        == #[trigger] digits[i] by {
        assert(part[lead.len() + i] == whole[lead.len() + i]);
    }
    let dot = (lead.len() + digits.len()) as int;
    assert(part[dot] == whole[dot]);
}

proof fn lemma_owned_begins(cleanup: CleanupView, name: Seq<char>)
    requires
        cleanup.owns(name),
    ensures
        begins(name, "config-"@, cleanup.epoch) || begins(name, "core-"@, cleanup.epoch) || begins(
            name,
            ".config-"@,
            cleanup.epoch,
        ),
{
    reveal_strlit(".pid");
    reveal_strlit(".sock");
    reveal_strlit(".yaml");
    reveal_strlit(".yaml.backup-");
    reveal_strlit(".yaml.tmp-");
    reveal_strlit(".pid.tmp-");
    let epoch = cleanup.epoch;
    assert(name.subrange(0, name.len() as int) =~= name);
    if name == runtime_store::config_name(epoch) {
        lemma_begins(name, name, "config-"@, epoch, ".yaml"@);
    } else if name == runtime_store::pid_name(epoch) {
        lemma_begins(name, name, "core-"@, epoch, ".pid"@);
    } else if name == runtime_store::socket_name(epoch) {
        lemma_begins(name, name, "core-"@, epoch, ".sock"@);
    } else if text::occurs_at(name, runtime_store::backup_prefix(epoch), 0) {
        let prefix = runtime_store::backup_prefix(epoch);
        lemma_begins(name, prefix, "config-"@, epoch, ".yaml.backup-"@);
    } else if text::occurs_at(name, runtime_store::staged_prefix(epoch), 0) {
        let prefix = runtime_store::staged_prefix(epoch);
        lemma_begins(name, prefix, ".config-"@, epoch, ".yaml.tmp-"@);
    } else {
        let prefix = runtime_store::pid_temp_prefix(epoch);
        lemma_begins(name, prefix, "core-"@, epoch, ".pid.tmp-"@);
    }
}

/// No entry is an artifact of two epochs, so that a cleanup spares those of any
/// other epoch; nor is the lock of the directory an artifact.
pub proof fn an_artifact_has_one_epoch(a: CleanupView, b: CleanupView, name: Seq<char>)
    requires
        a.owns(name),
        b.owns(name),
    ensures
        a.epoch == b.epoch,
        name != ".manager.lock"@,
{
    reveal_strlit("core-");
    reveal_strlit("config-");
    reveal_strlit(".config-");
    reveal_strlit(".manager.lock");
    lemma_owned_begins(a, name);
    lemma_owned_begins(b, name);
    assert("config-"@[0] == 'c' && "core-"@[0] == 'c' && ".config-"@[0] == '.');
    assert("config-"@[2] == 'n' && "core-"@[2] == 'r' && ".config-"@[1] == 'c');
    if begins(name, "config-"@, a.epoch) {
        lemma_one_number(name, "config-"@, a.epoch, b.epoch);
    } else if begins(name, "core-"@, a.epoch) {
        lemma_one_number(name, "core-"@, a.epoch, b.epoch);
    } else {
        lemma_one_number(name, ".config-"@, a.epoch, b.epoch);
    }
}

} // verus!
