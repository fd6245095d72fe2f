use std::collections::BTreeMap;

use nyanpasu_service::error::Error;
use nyanpasu_service::platform::Platform;
use nyanpasu_service::runtime_store::cleanup::CleanupProgress;
use nyanpasu_service::runtime_store::install::{
    FileReport, FileWork, InstallProgress, InstallStep, Installation, Installed,
};
use nyanpasu_service::runtime_store::{
    acquire_runtime_directory_lock, artifact_epoch, artifact_epochs, descriptor_words,
    directory_action, installed_commit, is_leftover, remove_regular_file, remove_socket_artifact,
    retries_replace, runtime_lock_is_contended, validate_absent_regular_target,
    validate_existing_regular_target, validate_lock_target, verify_windows_directory_acl,
    DirectoryAction, EntryMetadata, LockAttempt, Lookup, OsFailure, RuntimeCommitDurability,
    RuntimeConfigBackup, RuntimeConfigStore, StagedRuntimeConfig,
};

fn regular() -> EntryMetadata {
    EntryMetadata {
        is_symlink: false,
        is_file: true,
        is_dir: false,
        is_socket: false,
        is_reparse_point: false,
    }
}

fn directory() -> EntryMetadata {
    EntryMetadata { is_file: false, is_dir: true, ..regular() }
}

fn socket() -> EntryMetadata {
    EntryMetadata { is_file: false, is_socket: true, ..regular() }
}

/// A directory in memory, with one operation that can be made to fail.
#[derive(Default)]
struct Disk {
    files: BTreeMap<String, Vec<u8>>,
    sockets: Vec<String>,
    fail: Option<&'static str>,
    listing: Vec<String>,
    log: Vec<String>,
}

impl Disk {
    fn perform(&mut self, work: FileWork<'_>) -> FileReport {
        let name = match &work {
            FileWork::LookUp { .. } => "look",
            FileWork::Read { .. } => "read",
            FileWork::Create { .. } => "create",
            FileWork::Write { .. } => "write",
            FileWork::Move { .. } => "move",
            FileWork::Replace { .. } => "replace",
            FileWork::Sync => "sync",
            FileWork::Remove { .. } => "remove",
            FileWork::OpenDirectory => "open",
            FileWork::NextEntry => "next",
        };
        self.log.push(name.to_owned());
        if self.fail == Some(name) {
            self.fail = None;
            return FileReport::Failed { message: format!("{name} failed") };
        }
        match work {
            FileWork::LookUp { path } => FileReport::LookedUp {
                lookup: if self.files.contains_key(path) {
                    Lookup::Found(regular())
                } else if self.sockets.iter().any(|p| p == path) {
                    Lookup::Found(socket())
                } else {
                    Lookup::NotFound
                },
                missing: "no such file".to_owned(),
            },
            FileWork::Read { path } => FileReport::Contents { contents: self.files[path].clone() },
            FileWork::Create { path } => {
                self.files.insert(path.to_owned(), Vec::new());
                FileReport::Done
            }
            FileWork::Write { path, contents } => {
                self.files.insert(path.to_owned(), contents.clone());
                FileReport::Done
            }
            FileWork::Move { from, to } | FileWork::Replace { from, to } => {
                let contents = self.files.remove(from).unwrap();
                self.files.insert(to.to_owned(), contents);
                FileReport::Done
            }
            FileWork::Sync => FileReport::Done,
            FileWork::Remove { path } => {
                self.files.remove(path);
                self.sockets.retain(|p| p != path);
                FileReport::Done
            }
            FileWork::OpenDirectory => {
                self.listing = self.files.keys().cloned().collect();
                FileReport::Done
            }
            FileWork::NextEntry => match self.listing.pop() {
                Some(path) => FileReport::Entry {
                    name: path.rsplit('/').next().map(str::to_owned),
                    path: Some(path),
                },
                None => FileReport::NoEntry,
            },
        }
    }

    fn run(&mut self, begun: (Installation, InstallStep)) -> Result<Installed, Error> {
        let (installation, mut step) = begun;
        loop {
            let report = self.perform(installation.work(&step));
            match installation.advance(step, report) {
                InstallProgress::Continue(next) => step = next,
                InstallProgress::End(result) => return result,
            }
        }
    }

    fn clean(&mut self, store: &RuntimeConfigStore, epoch: u64) -> Result<(), Error> {
        let (cleanup, mut step) = store.cleanup_epoch(Platform::Unix, epoch);
        loop {
            let report = self.perform(cleanup.work(&step));
            match cleanup.advance(step, report) {
                CleanupProgress::Continue(next) => step = next,
                CleanupProgress::End(result) => return result,
            }
        }
    }
}

fn store() -> RuntimeConfigStore {
    RuntimeConfigStore::new(Some("/run/nyanpasu".to_owned()), &directory()).unwrap()
}

fn staged(installed: Result<Installed, Error>) -> StagedRuntimeConfig {
    match installed {
        Ok(Installed::Staged(staged)) => staged,
        other => panic!("unexpected result: {other:?}"),
    }
}

fn backed_up(installed: Result<Installed, Error>) -> RuntimeConfigBackup {
    match installed {
        Ok(Installed::BackedUp(backup)) => backup,
        other => panic!("unexpected result: {other:?}"),
    }
}

#[test]
fn installed_commit_reports_parent_sync_uncertainty_without_becoming_an_error() {
    let path = "config-4.yaml".to_owned();
    let commit =
        installed_commit(path.clone(), Err("injected directory fsync failure".to_owned()));
    assert_eq!(commit.path(), path);
    assert!(matches!(
        commit.durability(),
        RuntimeCommitDurability::Uncertain(message)
            if message.contains("atomically installed") && message.contains("injected")
    ));
    assert!(commit.durability_warning().is_some());
    assert_eq!(installed_commit(path, Ok(())).durability_warning(), None);
}

#[test]
fn atomic_replace_readers_only_observe_complete_documents() {
    let store = store();
    let mut disk = Disk::default();
    let old = b"marker: old\npayload: aaaa\n".to_vec();
    let new = b"marker: new\npayload: bbbb\n".to_vec();
    let first = staged(disk.run(store.stage(7, old.clone(), 1, 0)));
    assert_eq!(disk.run(store.commit_new(first, 7)), Ok(Installed::New(store.runtime_path(7))));
    for round in 0..10u64 {
        let contents = if round % 2 == 0 { new.clone() } else { old.clone() };
        let (installation, mut step) = store.replace(7, contents.clone(), 1, round + 1);
        loop {
            let report = disk.perform(installation.work(&step));
            let observed = &disk.files[&store.runtime_path(7)];
            assert!(*observed == old || *observed == new, "partial document observed");
            match installation.advance(step, report) {
                InstallProgress::Continue(next) => step = next,
                InstallProgress::End(result) => {
                    assert!(matches!(result, Ok(Installed::Replaced(_))));
                    break;
                }
            }
        }
        assert_eq!(disk.files[&store.runtime_path(7)], contents);
    }
    assert_eq!(disk.files.len(), 1);
}

#[test]
fn backup_restore_and_cleanup_preserve_complete_versions() {
    let store = store();
    let mut disk = Disk::default();
    let first = staged(disk.run(store.stage(3, b"value: old\n".to_vec(), 1, 0)));
    disk.run(store.commit_new(first, 3)).unwrap();
    let path = store.runtime_path(3);
    let backup = backed_up(disk.run(store.backup(3, 1, 1, 1)));
    assert_eq!(backup.epoch, 3);
    disk.run(store.replace(3, b"value: new\n".to_vec(), 1, 2)).unwrap();
    assert_eq!(disk.files[&path], b"value: new\n");
    disk.run(store.restore(&backup, 1, 3)).unwrap();
    assert_eq!(disk.files[&path], b"value: old\n");
    assert_eq!(disk.files[backup.path()], b"value: old\n", "the backup stays");
    assert_eq!(disk.files.len(), 2, "no staged file is left");
    assert_eq!(remove_regular_file(backup.path(), Lookup::Found(regular())), Ok(true));
    disk.files.remove(backup.path());
    disk.clean(&store, 3).unwrap();
    assert!(disk.files.is_empty());
}

#[test]
fn cleaning_up_leaves_other_epochs_alone() {
    let store = store();
    let mut disk = Disk::default();
    for epoch in [1u64, 11] {
        let first = staged(disk.run(store.stage(epoch, b"a: 1\n".to_vec(), 1, epoch)));
        disk.run(store.commit_new(first, epoch)).unwrap();
        disk.run(store.backup(epoch, 1, 1, epoch + 100)).unwrap();
        disk.files.insert(store.pid_path(epoch), b"pid".to_vec());
    }
    disk.sockets.push(store.socket_path(1));
    let kept = disk.files.keys().filter(|name| name.contains("11")).cloned().collect::<Vec<_>>();
    disk.clean(&store, 1).unwrap();
    assert_eq!(disk.files.keys().cloned().collect::<Vec<_>>(), kept);
    assert!(disk.sockets.is_empty());
    assert_eq!(kept.len(), 3);
}

#[test]
fn a_new_config_never_replaces_an_old_one() {
    let store = store();
    let mut disk = Disk::default();
    disk.files.insert(store.runtime_path(2), b"kept\n".to_vec());
    let second = staged(disk.run(store.stage(2, b"lost\n".to_vec(), 1, 0)));
    let result = disk.run(store.commit_new(second, 2));
    assert!(matches!(result, Err(Error::Io(message)) if message.contains("already exists")));
    assert_eq!(disk.files.len(), 1, "the staged file is given up");
    assert_eq!(disk.files[&store.runtime_path(2)], b"kept\n");
}

#[test]
fn a_failed_write_gives_the_staged_file_up() {
    let store = store();
    let mut disk = Disk { fail: Some("write"), ..Disk::default() };
    let result = disk.run(store.stage(2, b"x\n".to_vec(), 1, 0));
    assert_eq!(result, Err(Error::Io("write failed".to_owned())));
    assert!(disk.files.is_empty());
    assert_eq!(disk.log, ["look", "create", "write", "remove"]);
}

#[test]
fn a_replacement_survives_a_failed_synchronisation_and_a_first_config_does_not() {
    let store = store();
    let mut disk = Disk::default();
    disk.files.insert(store.runtime_path(2), b"a\n".to_vec());
    disk.fail = Some("sync");
    match disk.run(store.replace(2, b"b\n".to_vec(), 1, 0)) {
        Ok(Installed::Replaced(commit)) => assert!(commit.durability_warning().is_some()),
        other => panic!("unexpected result: {other:?}"),
    }
    let first = staged(disk.run(store.stage(3, b"c\n".to_vec(), 1, 1)));
    disk.fail = Some("sync");
    assert_eq!(disk.run(store.commit_new(first, 3)), Err(Error::Io("sync failed".to_owned())));
}

#[test]
fn a_replacement_needs_something_to_replace() {
    let store = store();
    let mut disk = Disk::default();
    let result = disk.run(store.replace(2, b"b\n".to_vec(), 1, 0));
    assert_eq!(result, Err(Error::Io("no such file".to_owned())));
    assert!(disk.files.is_empty());
    assert_eq!(disk.run(store.backup(2, 1, 1, 0)), Err(Error::Io("no such file".to_owned())));
}

#[test]
fn a_config_that_was_staged_elsewhere_is_given_up() {
    let store = store();
    let mut disk = Disk::default();
    for path in ["/tmp/.config-2.yaml.tmp-1-0", "/run/nyanpasu/.config-3.yaml.tmp-1-0"] {
        disk.files.insert(path.to_owned(), b"x\n".to_vec());
        let foreign = StagedRuntimeConfig { path: path.to_owned() };
        let result = disk.run(store.commit_new(foreign, 2));
        assert_eq!(result, Err(Error::UnsafeRuntimeArtifact(path.to_owned())));
        assert!(disk.files.is_empty());
    }
}

#[test]
fn cleaning_up_stops_at_what_is_no_file() {
    let store = store();
    let mut disk = Disk::default();
    disk.sockets.push(store.runtime_path(4));
    assert_eq!(
        disk.clean(&store, 4),
        Err(Error::UnsafeRuntimeArtifact(store.runtime_path(4)))
    );
    let mut disk = Disk { fail: Some("next"), ..Disk::default() };
    assert_eq!(disk.clean(&store, 4), Err(Error::Io("next failed".to_owned())));
}

#[test]
fn artifacts_are_known_by_their_names() {
    assert_eq!(artifact_epoch("config-12.yaml"), Some(12));
    assert_eq!(artifact_epoch("core-12.pid"), Some(12));
    assert_eq!(artifact_epoch("core-12.sock"), Some(12));
    assert_eq!(artifact_epoch("config-12.yaml.backup-3"), Some(12));
    assert_eq!(artifact_epoch(".config-12.yaml.tmp-99-1"), Some(12));
    assert_eq!(artifact_epoch("core-12.pid.tmp-1"), Some(12));
    assert_eq!(artifact_epoch("config-x.yaml"), None);
    assert_eq!(artifact_epoch("config-12.yml"), None);
    assert_eq!(artifact_epoch(".manager.lock"), None);
    assert_eq!(artifact_epoch("config-99999999999999999999.yaml"), None);
}

#[test]
fn listings_give_each_epoch_once_and_in_order() {
    let names = ["core-9.pid", "config-2.yaml", "config-9.yaml", "other", "core-10.sock"];
    let mut names: Vec<Option<String>> = names.iter().map(|n| Some(n.to_string())).collect();
    names.push(None);
    assert_eq!(artifact_epochs(&names), [2, 9, 10]);
    assert!(artifact_epochs(&Vec::new()).is_empty());
}

#[test]
fn leftovers_are_backups_and_files_in_the_making() {
    assert!(is_leftover("config-1.yaml.backup-2", 1));
    assert!(is_leftover(".config-1.yaml.tmp-2-3", 1));
    assert!(is_leftover("core-1.pid.tmp-2", 1));
    assert!(!is_leftover("config-1.yaml", 1));
    assert!(!is_leftover("config-11.yaml.backup-2", 1));
}

#[test]
fn only_ordinary_files_are_touched() {
    let link = Lookup::Found(EntryMetadata { is_symlink: true, ..regular() });
    assert_eq!(
        validate_absent_regular_target("/x", link),
        Err(Error::UnsafeRuntimeArtifact("/x".to_owned()))
    );
    assert_eq!(validate_absent_regular_target("/x", Lookup::NotFound), Ok(()));
    let point = Lookup::Found(EntryMetadata { is_reparse_point: true, ..regular() });
    assert_eq!(
        validate_existing_regular_target("/x", point, String::new()),
        Err(Error::UnsafeRuntimeArtifact("/x".to_owned()))
    );
    assert_eq!(
        validate_existing_regular_target("/x", Lookup::Found(regular()), String::new()),
        Ok(())
    );
    assert_eq!(remove_regular_file("/x", Lookup::NotFound), Ok(false));
    assert_eq!(
        remove_regular_file("/x", Lookup::Found(socket())),
        Err(Error::UnsafeRuntimeArtifact("/x".to_owned()))
    );
    assert_eq!(remove_socket_artifact(Platform::Unix, "/s", Lookup::Found(socket())), Ok(true));
    assert!(remove_socket_artifact(Platform::Unix, "/s", Lookup::Found(regular())).is_err());
    assert_eq!(remove_socket_artifact(Platform::Windows, "/s", Lookup::Found(regular())), Ok(true));
    assert!(remove_socket_artifact(Platform::Windows, "/s", Lookup::Found(socket())).is_err());
}

#[test]
fn a_store_needs_a_directory_with_a_readable_name() {
    assert!(RuntimeConfigStore::new(None, &directory()).is_err());
    assert!(RuntimeConfigStore::new(Some("/d".to_owned()), &regular()).is_err());
    assert_eq!(directory_action("/d", Lookup::NotFound), Ok(DirectoryAction::Create));
    assert_eq!(directory_action("/d", Lookup::Found(directory())), Ok(DirectoryAction::Use));
    assert!(directory_action("/d", Lookup::Found(regular())).is_err());
    assert_eq!(
        directory_action("/d", Lookup::Failed("denied".to_owned())),
        Err(Error::Io("denied".to_owned()))
    );
}

fn failure(code: i32, would_block: bool) -> OsFailure {
    OsFailure {
        code: Some(code),
        would_block,
        permission_denied: false,
        message: "os error".to_owned(),
    }
}

#[test]
fn a_directory_has_one_owner() {
    assert!(runtime_lock_is_contended(Platform::Unix, &failure(11, true)));
    assert!(!runtime_lock_is_contended(Platform::Unix, &failure(5, false)));
    for code in [5, 32, 33] {
        assert!(runtime_lock_is_contended(Platform::Windows, &failure(code, false)));
    }
    assert_eq!(
        acquire_runtime_directory_lock(Platform::Unix, "/l", LockAttempt::Locked),
        Ok(())
    );
    assert_eq!(
        acquire_runtime_directory_lock(
            Platform::Unix,
            "/l",
            LockAttempt::LockFailed(failure(11, true))
        ),
        Err(Error::RuntimeDirectoryOwned("/l".to_owned()))
    );
    assert_eq!(
        acquire_runtime_directory_lock(
            Platform::Unix,
            "/l",
            LockAttempt::OpenFailed(failure(28, false))
        ),
        Err(Error::Io("os error".to_owned()))
    );
    assert_eq!(validate_lock_target("/l", Lookup::NotFound), Ok(()));
    assert!(validate_lock_target("/l", Lookup::Found(directory())).is_err());
}

#[test]
fn replacing_is_tried_again_while_the_file_is_in_use() {
    assert!(retries_replace(0, Some(32)));
    assert!(retries_replace(18, Some(5)));
    assert!(!retries_replace(19, Some(5)));
    assert!(!retries_replace(0, Some(2)));
    assert!(!retries_replace(0, None));
}

#[test]
fn windows_directories_are_private() {
    let private = "D:P(A;OICI;FA;;;OW)(A;OICI;FA;;;SY)";
    assert_eq!(verify_windows_directory_acl("/d", 0x9000, private), Ok(()));
    assert!(verify_windows_directory_acl("/d", 0x8000, private).is_err());
    for broad in ["WD", "AU", "BU", "IU", "AN", "NU"] {
        let sddl = format!("D:P(A;OICI;FA;;;{broad})");
        assert_eq!(
            verify_windows_directory_acl("/d", 0x1000, &sddl),
            Err(Error::UnsafeRuntimeArtifact("/d".to_owned()))
        );
    }
    assert_eq!(descriptor_words(16, 8), 2);
    assert_eq!(descriptor_words(17, 8), 3);
    assert_eq!(descriptor_words(0, 8), 0);
}

#[test]
fn a_staged_config_is_committed_for_its_epoch_alone() {
    let store = RuntimeConfigStore { dir: "/run/nyanpasu".to_owned() };
    let at = |path: &str| StagedRuntimeConfig { path: path.to_owned() };
    let staged = at("/run/nyanpasu/.config-7.yaml.tmp-1-2");
    assert_eq!(store.validate_staged(&staged, 7), Ok(()));
    for (path, epoch) in [
        ("/run/nyanpasu/.config-7.yaml.tmp-1-2", 70),
        ("/run/nyanpasu/.config-70.yaml.tmp-1-2", 7),
        ("/run/other/.config-7.yaml.tmp-1-2", 7),
        ("/run/nyanpasu/inner/.config-7.yaml.tmp-1-2", 7),
        ("/run/nyanpasu/config-7.yaml", 7),
        (".config-7.yaml.tmp-1-2", 7),
    ] {
        assert_eq!(
            store.validate_staged(&at(path), epoch),
            Err(Error::UnsafeRuntimeArtifact(path.to_owned()))
        );
    }
}

#[test]
fn a_checked_config_replaces_the_one_in_place() {
    let store = store();
    let mut disk = Disk::default();
    disk.files.insert(store.runtime_path(5), b"value: old\n".to_vec());
    let next = staged(disk.run(store.stage(5, b"value: new\n".to_vec(), 1, 0)));
    assert_eq!(disk.files[&store.runtime_path(5)], b"value: old\n");
    match disk.run(store.commit_replace(next, 5)) {
        Ok(Installed::Replaced(commit)) => {
            assert_eq!(commit.path(), store.runtime_path(5));
            assert_eq!(commit.durability_warning(), None);
        }
        other => panic!("unexpected end: {other:?}"),
    }
    assert_eq!(disk.files[&store.runtime_path(5)], b"value: new\n");
    assert_eq!(disk.files.len(), 1);
}

#[test]
fn a_replacement_that_fails_leaves_the_old_config_and_nothing_else() {
    let store = store();
    for operation in ["create", "write", "replace"] {
        let mut disk = Disk::default();
        disk.files.insert(store.runtime_path(6), b"value: old\n".to_vec());
        disk.fail = Some(operation);
        let result = disk.run(store.replace(6, b"value: new\n".to_vec(), 1, 0));
        assert_eq!(result, Err(Error::Io(format!("{operation} failed"))));
        assert_eq!(disk.files[&store.runtime_path(6)], b"value: old\n");
        assert_eq!(disk.files.len(), 1, "{operation}");
    }
}

#[test]
fn a_clean_epoch_can_be_cleaned_again() {
    let store = store();
    let mut disk = Disk::default();
    let lock = "/run/nyanpasu/.manager.lock".to_owned();
    let other = store.runtime_path(80);
    for name in [lock.clone(), other.clone(), store.runtime_path(8), store.pid_path(8)] {
        disk.files.insert(name, b"x".to_vec());
    }
    for name in ["config-8.yaml.backup-1", ".config-8.yaml.tmp-1-0", "core-8.pid.tmp-17"] {
        disk.files.insert(format!("/run/nyanpasu/{name}"), b"x".to_vec());
    }
    disk.sockets.push(store.socket_path(8));
    for _ in 0..2 {
        assert_eq!(disk.clean(&store, 8), Ok(()));
        assert_eq!(disk.files.keys().cloned().collect::<Vec<_>>(), [lock.clone(), other.clone()]);
        assert!(disk.sockets.is_empty());
    }
}

#[test]
fn store_paths_stand_in_the_directory() {
    let store = store();
    assert_eq!(store.runtime_path(1), "/run/nyanpasu/config-1.yaml");
    assert_eq!(store.pid_path(1), "/run/nyanpasu/core-1.pid");
    assert_eq!(store.socket_path(1), "/run/nyanpasu/core-1.sock");
    let (backup, _) = store.backup(1, 2, 3, 4);
    assert_eq!(backup.destination, "/run/nyanpasu/config-1.yaml.backup-2");
    assert_eq!(backup.staging, "/run/nyanpasu/.config-1.yaml.tmp-3-4");
}

#[test]
fn a_cleanup_goes_for_the_paths_of_the_store() {
    for dir in ["/run/nyanpasu", "/run/", "", "run", r"\\?\C:\Users\x\.config\nyanpasu"] {
        let store = RuntimeConfigStore { dir: dir.to_owned() };
        let (cleanup, _) = store.cleanup_epoch(Platform::Unix, 5);
        assert_eq!(cleanup.runtime, store.runtime_path(5), "{dir}");
        assert_eq!(cleanup.pid, store.pid_path(5), "{dir}");
        assert_eq!(cleanup.socket, store.socket_path(5), "{dir}");
        assert!(cleanup.pid.starts_with(dir) && cleanup.pid.ends_with("core-5.pid"));
    }
}
