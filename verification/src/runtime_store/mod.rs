//! Manager-owned runtime configuration artifacts: their names, and which of
//! them may be touched.

pub mod cleanup;
pub mod directory;
pub mod disk;
pub mod install;

use crate::error::{Error, ErrorView};
use crate::path;
use crate::platform::Platform;
use crate::text;
use vstd::prelude::*;
use vstd::string::*;

verus! {

/// The file name of the runtime config of an epoch.
pub open spec fn config_name(epoch: u64) -> Seq<char> {
    "config-"@ + text::decimal(epoch as nat) + ".yaml"@
}

/// The file name of the pid record of an epoch.
pub open spec fn pid_name(epoch: u64) -> Seq<char> {
    "core-"@ + text::decimal(epoch as nat) + ".pid"@
}

/// The file name of the controller socket of an epoch.
pub open spec fn socket_name(epoch: u64) -> Seq<char> {
    "core-"@ + text::decimal(epoch as nat) + ".sock"@
}

/// How the names of backups of the runtime config of an epoch begin.
pub open spec fn backup_prefix(epoch: u64) -> Seq<char> {
    "config-"@ + text::decimal(epoch as nat) + ".yaml.backup-"@
}

/// How the names of staged configs of an epoch begin.
pub open spec fn staged_prefix(epoch: u64) -> Seq<char> {
    ".config-"@ + text::decimal(epoch as nat) + ".yaml.tmp-"@
}

/// How the names of pid records in the making begin.
pub open spec fn pid_temp_prefix(epoch: u64) -> Seq<char> {
    "core-"@ + text::decimal(epoch as nat) + ".pid.tmp-"@
}

/// The file name of the backup made before `generation` came in.
pub open spec fn backup_name(epoch: u64, generation: u64) -> Seq<char> {
    backup_prefix(epoch) + text::decimal(generation as nat)
}

/// The file name of a staged config: the process and a counter make it unique.
pub open spec fn staged_name(epoch: u64, process: u32, counter: u64) -> Seq<char> {
    staged_prefix(epoch) + text::decimal(process as nat) + "-"@ + text::decimal(counter as nat)
}

/// The file name of the pid record of an epoch while process `process` makes it.
pub open spec fn pid_temp_name(epoch: u64, process: u32) -> Seq<char> {
    pid_temp_prefix(epoch) + text::decimal(process as nat)
}

fn numbered(lead: &str, number: u64, tail: &str) -> (res: String)
    ensures
        res@ == lead@ + text::decimal(number as nat) + tail@,
{
    let digits: String = text::decimal_text(number);
    text::concat3(lead, digits.as_str(), tail)
}

/// The file name of the backup made before `generation` came in.
pub fn backup_file_name(epoch: u64, generation: u64) -> (res: String)
    ensures
        res@ == backup_name(epoch, generation),
{
    let mut res: String = numbered("config-", epoch, ".yaml.backup-");
    let digits: String = text::decimal_text(generation);
    res.append(digits.as_str());
    res
}

/// The file name of a staged config.
pub fn staged_file_name(epoch: u64, process: u32, counter: u64) -> (res: String)
    ensures
        res@ == staged_name(epoch, process, counter),
{
    let mut res: String = numbered(".config-", epoch, ".yaml.tmp-");
    let process_digits: String = text::decimal_text(process as u64);
    let counter_digits: String = text::decimal_text(counter);
    res.append(process_digits.as_str());
    res.append("-");
    res.append(counter_digits.as_str());
    res
}

/// The first of two that is there.
pub open spec fn some_of(a: Option<Seq<char>>, b: Option<Seq<char>>) -> Option<Seq<char>> {
    if a is Some {
        a
    } else {
        b
    }
}

/// The part of an artifact's name that holds its epoch: the text between a
/// known beginning and a known end or mark.
pub open spec fn epoch_part(name: Seq<char>) -> Option<Seq<char>> {
    let core = text::strip_prefix(name, "core-"@);
    let config = text::strip_prefix(name, "config-"@);
    let staged = text::strip_prefix(name, ".config-"@);
    let pid = match core {
        Some(value) => text::strip_suffix(value, ".pid"@),
        None => None,
    };
    let sock = match core {
        Some(value) => text::strip_suffix(value, ".sock"@),
        None => None,
    };
    let runtime = match config {
        Some(value) => some_of(
            text::strip_suffix(value, ".yaml"@),
            text::before(value, ".yaml.backup-"@),
        ),
        None => None,
    };
    let temp = match staged {
        Some(value) => text::before(value, ".yaml.tmp-"@),
        None => None,
    };
    let pid_temp = match core {
        Some(value) => text::before(value, ".pid.tmp-"@),
        None => None,
    };
    some_of(pid, some_of(sock, some_of(runtime, some_of(temp, pid_temp))))
}

/// The epoch that an artifact belongs to, by its name.
pub open spec fn epoch_of(name: Seq<char>) -> Option<u64> {
    match epoch_part(name) {
        Some(part) => text::parsed_u64(part),
        None => None,
    }
}

fn epoch_part_text(name: &str) -> (res: Option<String>)
    ensures
        match res {
            Some(part) => epoch_part(name@) == Some(part@),
            None => epoch_part(name@) is None,
        },
{
    let core: Option<String> = text::without_prefix(name, "core-");
    if let Some(value) = &core {
        let pid: Option<String> = text::without_suffix(value.as_str(), ".pid");
        if pid.is_some() {
            return pid;
        }
        let sock: Option<String> = text::without_suffix(value.as_str(), ".sock");
        if sock.is_some() {
            return sock;
        }
    }
    if let Some(value) = text::without_prefix(name, "config-") {
        let yaml: Option<String> = text::without_suffix(value.as_str(), ".yaml");
        if yaml.is_some() {
            return yaml;
        }
        let backup: Option<String> = text::text_before(value.as_str(), ".yaml.backup-");
        if backup.is_some() {
            return backup;
        }
    }
    if let Some(value) = text::without_prefix(name, ".config-") {
        let temp: Option<String> = text::text_before(value.as_str(), ".yaml.tmp-");
        if temp.is_some() {
            return temp;
        }
    }
    match &core {
        Some(value) => text::text_before(value.as_str(), ".pid.tmp-"),
        None => None,
    }
}

/// The epoch that an artifact belongs to, by its name; none for a file that is
/// no artifact.
pub fn artifact_epoch(name: &str) -> (res: Option<u64>)
    ensures
        res == epoch_of(name@),
{
    match epoch_part_text(name) {
        Some(part) => text::parse_u64(part.as_str()),
        None => None,
    }
}

proof fn lemma_strip_prefix(prefix: Seq<char>, rest: Seq<char>)
    ensures
        text::strip_prefix(prefix + rest, prefix) == Some(rest),
{
    let whole = prefix + rest;
    assert(whole.subrange(0, prefix.len() as int) =~= prefix);
    assert(whole.skip(prefix.len() as int) =~= rest);
}

proof fn lemma_strip_suffix(rest: Seq<char>, suffix: Seq<char>)
    ensures
        text::strip_suffix(rest + suffix, suffix) == Some(rest),
{
    let whole = rest + suffix;
    let at = whole.len() - suffix.len();
    assert(whole.subrange(at, at + suffix.len()) =~= suffix);
    assert(whole.take(at) =~= rest);
}

/// Digits hold no dot, so a mark that begins with one is found right behind
/// them.
proof fn lemma_before_mark(n: u64, mark: Seq<char>, rest: Seq<char>)
    requires
        mark.len() > 0,
        mark[0] == '.',
    ensures
        text::before(text::decimal(n as nat) + mark + rest, mark) == Some(text::decimal(n as nat)),
{
    let digits = text::decimal(n as nat);
    let whole = digits + mark + rest;
    text::lemma_decimal_value(n as nat);
    text::lemma_find_from(whole, mark, 0);
    assert(whole.subrange(digits.len() as int, digits.len() as int + mark.len()) =~= mark);
    assert(text::occurs_at(whole, mark, digits.len() as int));
    assert forall|j: int| 0 <= j < digits.len() implies !text::occurs_at(whole, mark, j) by {
        if text::occurs_at(whole, mark, j) {
            assert(whole.subrange(j, j + mark.len())[0] == mark[0]);
            assert(whole[j] == digits[j]);
            assert(text::is_digit(digits[j]));
        }
    }
    assert(whole.take(digits.len() as int) =~= digits);
}

proof fn lemma_ends_otherwise(whole: Seq<char>, suffix: Seq<char>)
    requires
        whole.len() > 0,
        suffix.len() > 0,
        whole.last() != suffix.last(),
    ensures
        text::strip_suffix(whole, suffix) is None,
{
    let at = whole.len() - suffix.len();
    if text::occurs_at(whole, suffix, at) {
        assert(whole.subrange(at, at + suffix.len())[suffix.len() - 1] == suffix.last());
    }
}

proof fn lemma_starts_otherwise(whole: Seq<char>, prefix: Seq<char>, at: int)
    requires
        0 <= at < prefix.len(),
        at < whole.len(),
        whole[at] != prefix[at],
    ensures
        text::strip_prefix(whole, prefix) is None,
{
    if text::occurs_at(whole, prefix, 0) {
        assert(whole.subrange(0, prefix.len() as int)[at] == prefix[at]);
    }
}

/// Every artifact that is made for an epoch is recognised as belonging to it.
pub proof fn artifacts_belong_to_their_epoch(
    epoch: u64,
    generation: u64,
    process: u32,
    counter: u64,
)
    ensures
        epoch_of(pid_name(epoch)) == Some(epoch),
        epoch_of(socket_name(epoch)) == Some(epoch),
        epoch_of(config_name(epoch)) == Some(epoch),
        epoch_of(backup_name(epoch, generation)) == Some(epoch),
        epoch_of(staged_name(epoch, process, counter)) == Some(epoch),
        epoch_of(pid_temp_name(epoch, process)) == Some(epoch),
{
    reveal_strlit(".pid.tmp-");
    reveal_strlit("core-");
    reveal_strlit("config-");
    reveal_strlit(".config-");
    reveal_strlit(".pid");
    reveal_strlit(".sock");
    reveal_strlit(".yaml");
    reveal_strlit(".yaml.backup-");
    reveal_strlit(".yaml.tmp-");
    let digits = text::decimal(epoch as nat);
    text::decimal_round_trip(epoch);
    text::lemma_decimal_value(epoch as nat);
    // core-{epoch}.pid
    assert(pid_name(epoch) =~= "core-"@ + (digits + ".pid"@));
    lemma_strip_prefix("core-"@, digits + ".pid"@);
    lemma_strip_suffix(digits, ".pid"@);
    // core-{epoch}.sock
    assert(socket_name(epoch) =~= "core-"@ + (digits + ".sock"@));
    lemma_strip_prefix("core-"@, digits + ".sock"@);
    lemma_strip_suffix(digits, ".sock"@);
    lemma_ends_otherwise(digits + ".sock"@, ".pid"@);
    // config-{epoch}.yaml
    assert(config_name(epoch) =~= "config-"@ + (digits + ".yaml"@));
    lemma_strip_prefix("config-"@, digits + ".yaml"@);
    lemma_strip_suffix(digits, ".yaml"@);
    lemma_starts_otherwise(config_name(epoch), "core-"@, 2);
    // config-{epoch}.yaml.backup-{generation}
    let tail = text::decimal(generation as nat);
    text::lemma_decimal_value(generation as nat);
    let backup = backup_name(epoch, generation);
    assert(backup =~= "config-"@ + (digits + ".yaml.backup-"@ + tail));
    lemma_strip_prefix("config-"@, digits + ".yaml.backup-"@ + tail);
    lemma_before_mark(epoch, ".yaml.backup-"@, tail);
    assert((digits + ".yaml.backup-"@ + tail).last() == tail.last());
    assert(text::is_digit(tail[tail.len() - 1]));
    lemma_ends_otherwise(digits + ".yaml.backup-"@ + tail, ".yaml"@);
    lemma_starts_otherwise(backup, "core-"@, 2);
    // .config-{epoch}.yaml.tmp-{process}-{counter}
    let rest = text::decimal(process as nat) + "-"@ + text::decimal(counter as nat);
    let staged = staged_name(epoch, process, counter);
    assert(staged =~= ".config-"@ + (digits + ".yaml.tmp-"@ + rest));
    lemma_strip_prefix(".config-"@, digits + ".yaml.tmp-"@ + rest);
    lemma_before_mark(epoch, ".yaml.tmp-"@, rest);
    lemma_starts_otherwise(staged, "core-"@, 0);
    lemma_starts_otherwise(staged, "config-"@, 0);
    // core-{epoch}.pid.tmp-{process}
    let maker = text::decimal(process as nat);
    text::lemma_decimal_value(process as nat);
    let temp = pid_temp_name(epoch, process);
    assert(temp =~= "core-"@ + (digits + ".pid.tmp-"@ + maker));
    lemma_strip_prefix("core-"@, digits + ".pid.tmp-"@ + maker);
    lemma_before_mark(epoch, ".pid.tmp-"@, maker);
    assert((digits + ".pid.tmp-"@ + maker).last() == maker.last());
    assert(text::is_digit(maker[maker.len() - 1]));
    lemma_ends_otherwise(digits + ".pid.tmp-"@ + maker, ".pid"@);
    lemma_ends_otherwise(digits + ".pid.tmp-"@ + maker, ".sock"@);
    lemma_starts_otherwise(temp, "config-"@, 2);
    lemma_starts_otherwise(temp, ".config-"@, 0);
}

/// Whether a directory entry is a leftover of `epoch` that cleaning up removes
/// besides the stable artifacts: a backup or a file in the making.
pub open spec fn leftover(name: Seq<char>, epoch: u64) -> bool {
    text::occurs_at(name, backup_prefix(epoch), 0) || text::occurs_at(name, staged_prefix(epoch), 0)
        || text::occurs_at(name, pid_temp_prefix(epoch), 0)
}

/// Whether cleaning up `epoch` removes the directory entry `name` besides the
/// stable artifacts.
pub fn is_leftover(name: &str, epoch: u64) -> (res: bool)
    ensures
        res == leftover(name@, epoch),
{
    let backup: String = numbered("config-", epoch, ".yaml.backup-");
    let staged: String = numbered(".config-", epoch, ".yaml.tmp-");
    let pid: String = numbered("core-", epoch, ".pid.tmp-");
    text::starts_with(name, backup.as_str()) || text::starts_with(name, staged.as_str())
        || text::starts_with(name, pid.as_str())
}

/// Backups, staged configs and pid records in the making are cleaned up with
/// their epoch.
pub proof fn made_files_are_leftovers(epoch: u64, generation: u64, process: u32, counter: u64)
    ensures
        leftover(backup_name(epoch, generation), epoch),
        leftover(staged_name(epoch, process, counter), epoch),
        leftover(pid_temp_name(epoch, process), epoch),
{
    let temp = pid_temp_name(epoch, process);
    assert(temp.subrange(0, pid_temp_prefix(epoch).len() as int) =~= pid_temp_prefix(epoch));
    let backup = backup_name(epoch, generation);
    assert(backup.subrange(0, backup_prefix(epoch).len() as int) =~= backup_prefix(epoch));
    let staged = staged_name(epoch, process, counter);
    assert(staged.subrange(0, staged_prefix(epoch).len() as int) =~= staged_prefix(epoch));
}

/// Whether some entry of the listing is an artifact of `epoch`.
pub open spec fn listed(names: Seq<Option<String>>, epoch: u64) -> bool {
    exists|i: int|
        0 <= i < names.len() && (#[trigger] names[i]) is Some && epoch_of(names[i]->0@) == Some(
            epoch,
        )
}

fn insert_sorted(list: &mut Vec<u64>, value: u64)
    requires
        forall|i: int, j: int| 0 <= i < j < old(list)@.len() ==> old(list)@[i] < old(list)@[j],
    ensures
        forall|i: int, j: int|
            0 <= i < j < final(list)@.len() ==> final(list)@[i] < final(list)@[j],
        forall|v: u64| #[trigger]
            final(list)@.contains(v) <==> (v == value || old(list)@.contains(v)),
{
    let mut at: usize = 0;
    while at < list.len() && list[at] < value
        invariant
            at <= list.len(),
            list@ == old(list)@,
            forall|i: int| 0 <= i < at ==> list@[i] < value,
        decreases list.len() - at,
    {
        at = at + 1;
    }
    if at < list.len() && list[at] == value {
        assert(list@.contains(value)) by {
            assert(list@[at as int] == value);
        }
        return;
    }
    let ghost before = list@;
    list.insert(at, value);
    let ghost after = list@;
    assert(after == before.insert(at as int, value));
    assert forall|v: u64| #[trigger] after.contains(v) <==> (v == value || before.contains(v)) by {
        if before.contains(v) {
            let i = choose|i: int| 0 <= i < before.len() && before[i] == v;
            if i < at {
                assert(after[i] == v);
            } else {
                assert(after[i + 1] == v);
            }
        }
        if v == value {
            assert(after[at as int] == v);
        }
        if after.contains(v) {
            let i = choose|i: int| 0 <= i < after.len() && after[i] == v;
            if i < at {
                assert(before[i] == v);
            } else if i > at {
                assert(before[i - 1] == v);
            }
        }
    }
}

/// The epochs that a directory listing holds artifacts of, ascending and each
/// once. Entries whose name is not text are skipped.
pub fn artifact_epochs(names: &Vec<Option<String>>) -> (res: Vec<u64>)
    ensures
        forall|i: int, j: int| 0 <= i < j < res@.len() ==> res@[i] < res@[j],
        forall|epoch: u64| #[trigger] res@.contains(epoch) <==> listed(names@, epoch),
{
    let mut res: Vec<u64> = Vec::new();
    let mut i: usize = 0;
    while i < names.len()
        invariant
            i <= names.len(),
            forall|a: int, b: int| 0 <= a < b < res@.len() ==> res@[a] < res@[b],
            forall|epoch: u64| #[trigger]
                res@.contains(epoch) <==> listed(names@.take(i as int), epoch),
        decreases names.len() - i,
    {
        let ghost before = names@.take(i as int);
        let ghost after = names@.take(i + 1);
        let ghost known = res@;
        let found: Option<u64> = match &names[i] {
            Some(name) => artifact_epoch(name.as_str()),
            None => None,
        };
        if let Some(epoch) = found {
            insert_sorted(&mut res, epoch);
        }
        proof {
            assert(after[i as int] == names@[i as int]);
            assert forall|epoch: u64| #[trigger] res@.contains(epoch) <==> listed(after, epoch) by {
                if listed(before, epoch) {
                    let k = choose|k: int|
                        0 <= k < before.len() && (#[trigger] before[k]) is Some && epoch_of(
                            before[k]->0@,
                        ) == Some(epoch);
                    assert(after[k] == before[k]);
                }
                if listed(after, epoch) {
                    let k = choose|k: int|
                        0 <= k < after.len() && (#[trigger] after[k]) is Some && epoch_of(
                            after[k]->0@,
                        ) == Some(epoch);
                    if k < i {
                        assert(before[k] == after[k]);
                    }
                }
                assert(known.contains(epoch) <==> listed(before, epoch));
            }
        }
        i = i + 1;
    }
    assert(names@.take(names@.len() as int) =~= names@);
    res
}

/// What the file system tells of an entry, without following links.
#[derive(Debug, Clone, Copy, PartialEq, Eq, Structural)]
pub struct EntryMetadata {
    pub is_symlink: bool,
    pub is_file: bool,
    pub is_dir: bool,
    pub is_socket: bool,
    /// Set only where the system knows reparse points.
    pub is_reparse_point: bool,
}

impl EntryMetadata {
    /// Whether the entry is an ordinary file that may be touched.
    pub open spec fn regular(self) -> bool {
        !self.is_symlink && self.is_file && !self.is_reparse_point
    }

    fn is_regular(&self) -> (res: bool)
        ensures
            res == self.regular(),
    {
        !(self.is_symlink || !self.is_file || self.is_reparse_point)
    }

    /// Whether the entry is a directory that may be used.
    pub open spec fn plain_directory(self) -> bool {
        !self.is_symlink && self.is_dir && !self.is_reparse_point
    }

    /// Whether the entry can be a controller socket, on `platform`.
    pub open spec fn socket_like(self, platform: Platform) -> bool {
        !self.is_symlink && !self.is_reparse_point && match platform {
            Platform::Unix => self.is_socket,
            Platform::Windows => self.is_file,
        }
    }
}

/// What looking up an entry gave.
#[derive(Debug, PartialEq, Eq)]
pub enum Lookup {
    Found(EntryMetadata),
    NotFound,
    /// The lookup failed, with this message.
    Failed(String),
}

/// Accepts a directory, and neither a link nor anything else.
pub fn validate_directory_metadata(path: &str, metadata: &EntryMetadata) -> (res: Result<
    (),
    Error,
>)
    ensures
        match res {
            Ok(_) => metadata.plain_directory(),
            Err(error) => !metadata.plain_directory() && error@
                == ErrorView::UnsafeRuntimeArtifact(path@),
        },
{
    if metadata.is_symlink || !metadata.is_dir || metadata.is_reparse_point {
        return Err(Error::UnsafeRuntimeArtifact(path.to_owned()));
    }
    Ok(())
}

/// What is wrong with a path that nothing may stand at yet.
pub open spec fn absent_fault(path: Seq<char>, lookup: Lookup) -> Option<ErrorView> {
    match lookup {
        Lookup::Found(metadata) => if metadata.regular() {
            Some(ErrorView::Io("runtime artifact already exists: "@ + path))
        } else {
            Some(ErrorView::UnsafeRuntimeArtifact(path))
        },
        Lookup::NotFound => None,
        Lookup::Failed(message) => Some(ErrorView::Io(message@)),
    }
}

/// What is wrong with a path that an ordinary file has to stand at.
pub open spec fn existing_fault(path: Seq<char>, lookup: Lookup, missing: Seq<char>) -> Option<
    ErrorView,
> {
    match lookup {
        Lookup::Found(metadata) => if metadata.regular() {
            None
        } else {
            Some(ErrorView::UnsafeRuntimeArtifact(path))
        },
        Lookup::NotFound => Some(ErrorView::Io(missing)),
        Lookup::Failed(message) => Some(ErrorView::Io(message@)),
    }
}

/// Whether `result` is a success exactly if nothing is wrong, and else says what
/// is.
pub open spec fn faults_as(result: Result<(), Error>, fault: Option<ErrorView>) -> bool {
    match (result, fault) {
        (Ok(_), None) => true,
        (Err(error), Some(view)) => error@ == view,
        _ => false,
    }
}

/// Accepts a path that nothing stands at yet.
pub fn validate_absent_regular_target(path: &str, lookup: Lookup) -> (res: Result<(), Error>)
    ensures
        faults_as(res, absent_fault(path@, lookup)),
{
    match lookup {
        Lookup::Found(metadata) => {
            if !metadata.is_regular() {
                Err(Error::UnsafeRuntimeArtifact(path.to_owned()))
            } else {
                Err(Error::Io(text::concat("runtime artifact already exists: ", path)))
            }
        },
        Lookup::NotFound => Ok(()),
        Lookup::Failed(message) => Err(Error::Io(message)),
    }
}

/// Accepts an existing ordinary file. `missing` is the system's message for a
/// file that is not there.
pub fn validate_existing_regular_target(path: &str, lookup: Lookup, missing: String) -> (res:
    Result<(), Error>)
    ensures
        faults_as(res, existing_fault(path@, lookup, missing@)),
{
    match lookup {
        Lookup::Found(metadata) => {
            if !metadata.is_regular() {
                return Err(Error::UnsafeRuntimeArtifact(path.to_owned()));
            }
            Ok(())
        },
        Lookup::NotFound => Err(Error::Io(missing)),
        Lookup::Failed(message) => Err(Error::Io(message)),
    }
}

/// Whether an ordinary file has to be removed: only if it is there and nothing
/// but an ordinary file.
pub fn remove_regular_file(path: &str, lookup: Lookup) -> (res: Result<bool, Error>)
    ensures
        match (lookup, res) {
            (Lookup::Found(metadata), Ok(remove)) => metadata.regular() && remove,
            (Lookup::Found(metadata), Err(error)) => !metadata.regular() && error@
                == ErrorView::UnsafeRuntimeArtifact(path@),
            (Lookup::NotFound, Ok(remove)) => !remove,
            (Lookup::Failed(message), Err(error)) => error@ == ErrorView::Io(message@),
            _ => false,
        },
{
    match lookup {
        Lookup::Found(metadata) => {
            if !metadata.is_regular() {
                return Err(Error::UnsafeRuntimeArtifact(path.to_owned()));
            }
            Ok(true)
        },
        Lookup::NotFound => Ok(false),
        Lookup::Failed(message) => Err(Error::Io(message)),
    }
}

/// Whether a controller socket has to be removed: only if it is there and
/// nothing but what `platform` makes of a socket.
pub fn remove_socket_artifact(platform: Platform, path: &str, lookup: Lookup) -> (res: Result<
    bool,
    Error,
>)
    ensures
        match (lookup, res) {
            (Lookup::Found(metadata), Ok(remove)) => metadata.socket_like(platform) && remove,
            (Lookup::Found(metadata), Err(error)) => !metadata.socket_like(platform) && error@
                == ErrorView::UnsafeRuntimeArtifact(path@),
            (Lookup::NotFound, Ok(remove)) => !remove,
            (Lookup::Failed(message), Err(error)) => error@ == ErrorView::Io(message@),
            _ => false,
        },
{
    match lookup {
        Lookup::Found(metadata) => {
            if metadata.is_symlink || metadata.is_reparse_point {
                return Err(Error::UnsafeRuntimeArtifact(path.to_owned()));
            }
            let expected: bool = match platform {
                Platform::Unix => metadata.is_socket,
                Platform::Windows => metadata.is_file,
            };
            if !expected {
                return Err(Error::UnsafeRuntimeArtifact(path.to_owned()));
            }
            Ok(true)
        },
        Lookup::NotFound => Ok(false),
        Lookup::Failed(message) => Err(Error::Io(message)),
    }
}

/// A failed system call: its error code and the kinds that matter here.
#[derive(Debug, PartialEq, Eq)]
pub struct OsFailure {
    pub code: Option<i32>,
    pub would_block: bool,
    pub permission_denied: bool,
    pub message: String,
}

/// Whether an error code of Windows says that another process has the file.
pub open spec fn sharing_code(code: Option<i32>) -> bool {
    code == Some(5i32) || code == Some(32i32) || code == Some(33i32)
}

fn is_sharing_code(code: Option<i32>) -> (res: bool)
    ensures
        res == sharing_code(code),
{
    match code {
        Some(value) => value == 5 || value == 32 || value == 33,
        None => false,
    }
}

/// Whether a failure to lock means that another manager holds the lock.
pub open spec fn contended(platform: Platform, failure: OsFailure) -> bool {
    match platform {
        Platform::Unix => failure.would_block || failure.permission_denied,
        Platform::Windows => sharing_code(failure.code),
    }
}

/// Whether a failure to lock means that another manager holds the lock.
pub fn runtime_lock_is_contended(platform: Platform, failure: &OsFailure) -> (res: bool)
    ensures
        res == contended(platform, *failure),
{
    match platform {
        Platform::Unix => failure.would_block || failure.permission_denied,
        Platform::Windows => is_sharing_code(failure.code),
    }
}

/// Whether the lock file may be opened: it is not there yet, or it is an
/// ordinary file.
pub fn validate_lock_target(path: &str, lookup: Lookup) -> (res: Result<(), Error>)
    ensures
        match (lookup, res) {
            (Lookup::Found(metadata), Ok(_)) => metadata.regular(),
            (Lookup::Found(metadata), Err(error)) => !metadata.regular() && error@
                == ErrorView::UnsafeRuntimeArtifact(path@),
            (Lookup::NotFound, Ok(_)) => true,
            (Lookup::Failed(message), Err(error)) => error@ == ErrorView::Io(message@),
            _ => false,
        },
{
    match lookup {
        Lookup::Found(metadata) => {
            if !metadata.is_regular() {
                return Err(Error::UnsafeRuntimeArtifact(path.to_owned()));
            }
            Ok(())
        },
        Lookup::NotFound => Ok(()),
        Lookup::Failed(message) => Err(Error::Io(message)),
    }
}

/// What came of opening and locking the lock file.
#[derive(Debug, PartialEq, Eq)]
pub enum LockAttempt {
    Locked,
    OpenFailed(OsFailure),
    LockFailed(OsFailure),
}

/// Takes ownership of a runtime directory: the lock file must be an ordinary
/// file, and nobody else may hold it.
pub fn acquire_runtime_directory_lock(
    platform: Platform,
    path: &str,
    attempt: LockAttempt,
) -> (res: Result<(), Error>)
    ensures
        match (attempt, res) {
            (LockAttempt::Locked, Ok(_)) => true,
            (LockAttempt::OpenFailed(failure), Err(error)) => error@ == lock_refusal(
                platform,
                path@,
                failure,
            ),
            (LockAttempt::LockFailed(failure), Err(error)) => error@ == lock_refusal(
                platform,
                path@,
                failure,
            ),
            _ => false,
        },
{
    let failure: OsFailure = match attempt {
        LockAttempt::Locked => {
            return Ok(());
        },
        LockAttempt::OpenFailed(failure) => failure,
        LockAttempt::LockFailed(failure) => failure,
    };
    if runtime_lock_is_contended(platform, &failure) {
        Err(Error::RuntimeDirectoryOwned(path.to_owned()))
    } else {
        Err(Error::Io(failure.message))
    }
}

/// The error for a lock that was not got.
pub open spec fn lock_refusal(
    platform: Platform,
    path: Seq<char>,
    failure: OsFailure,
) -> ErrorView {
    if contended(platform, failure) {
        ErrorView::RuntimeDirectoryOwned(path)
    } else {
        ErrorView::Io(failure.message@)
    }
}

/// How often replacing a file is tried on Windows.
pub const REPLACE_ATTEMPTS: u64 = 20;

/// Whether a failed replacement is tried again: while another process has the
/// file, and while attempts are left.
pub fn retries_replace(attempt: u64, code: Option<i32>) -> (res: bool)
    ensures
        res == (sharing_code(code) && attempt + 1 < REPLACE_ATTEMPTS),
{
    is_sharing_code(code) && attempt < REPLACE_ATTEMPTS && attempt + 1 < REPLACE_ATTEMPTS
}

/// The access list that a runtime directory gets on Windows: its owner, the
/// system and the administrators, and nothing inherited.
pub const DIRECTORY_ACL: &'static str = "D:P(A;OICI;FA;;;OW)(A;OICI;FA;;;SY)(A;OICI;FA;;;BA)";

/// Whether an access list names a principal that stands for many users.
pub open spec fn names_broad_principal(sddl: Seq<char>) -> bool {
    text::find(sddl, ";;;WD)"@) is Some || text::find(sddl, ";;;AU)"@) is Some || text::find(
        sddl,
        ";;;BU)"@,
    ) is Some || text::find(sddl, ";;;IU)"@) is Some || text::find(sddl, ";;;AN)"@) is Some
        || text::find(sddl, ";;;NU)"@) is Some
}

/// Whether a security descriptor's control bits say that its access list is
/// protected from inheritance.
pub open spec fn acl_protected(control: u16) -> bool {
    control & 0x1000 != 0
}

/// Accepts a runtime directory on Windows by its security descriptor: the
/// access list is protected and names no broad principal.
pub fn verify_windows_directory_acl(path: &str, control: u16, sddl: &str) -> (res: Result<
    (),
    Error,
>)
    ensures
        match res {
            Ok(_) => acl_protected(control) && !names_broad_principal(sddl@),
            Err(error) => (!acl_protected(control) || names_broad_principal(sddl@)) && error@
                == ErrorView::UnsafeRuntimeArtifact(path@),
        },
{
    if control & 0x1000 == 0 {
        return Err(Error::UnsafeRuntimeArtifact(path.to_owned()));
    }
    if text::contains_text(sddl, ";;;WD)") || text::contains_text(sddl, ";;;AU)")
        || text::contains_text(sddl, ";;;BU)") || text::contains_text(sddl, ";;;IU)")
        || text::contains_text(sddl, ";;;AN)") || text::contains_text(sddl, ";;;NU)") {
        return Err(Error::UnsafeRuntimeArtifact(path.to_owned()));
    }
    Ok(())
}

/// How many machine words of `word_size` bytes hold `needed` bytes.
pub fn descriptor_words(needed: u32, word_size: u32) -> (res: u32)
    requires
        word_size > 0,
    ensures
        needed <= res * word_size,
        res > 0 ==> (res - 1) * word_size < needed,
{
    let whole: u32 = needed / word_size;
    let rest: u32 = needed % word_size;
    proof {
        vstd::arithmetic::div_mod::lemma_fundamental_div_mod(needed as int, word_size as int);
        assert(whole * word_size == word_size * whole) by (nonlinear_arith);
        assert((whole + 1) * word_size == whole * word_size + word_size) by (nonlinear_arith);
        assert((whole - 1) * word_size == whole * word_size - word_size) by (nonlinear_arith);
        assert(rest > 0 ==> whole < u32::MAX) by {
            if whole == u32::MAX {
                assert(word_size == 1 || whole * word_size >= 2 * whole) by (nonlinear_arith)
                    requires
                        word_size >= 1,
                ;
            }
        }
    }
    if rest > 0 {
        whole + 1
    } else {
        whole
    }
}

/// Whether an installed runtime config is known to survive a power loss.
#[derive(Debug, PartialEq, Eq)]
pub enum RuntimeCommitDurability {
    Durable,
    Uncertain(String),
}

/// A runtime config that was installed.
#[derive(Debug, PartialEq, Eq)]
pub struct RuntimeConfigCommit {
    pub path: String,
    pub durability: RuntimeCommitDurability,
}

impl RuntimeConfigCommit {
    /// Where the config was installed.
    pub fn path(&self) -> (res: &str)
        ensures
            res@ == self.path@,
    {
        self.path.as_str()
    }

    /// Whether it is known to be durable.
    pub fn durability(&self) -> (res: &RuntimeCommitDurability)
        ensures
            *res == self.durability,
    {
        &self.durability
    }

    /// The warning, where it is not known to be durable.
    pub fn durability_warning(&self) -> (res: Option<String>)
        ensures
            res == match self.durability {
                RuntimeCommitDurability::Durable => None::<String>,
                RuntimeCommitDurability::Uncertain(warning) => Some(warning),
            },
    {
        match &self.durability {
            RuntimeCommitDurability::Durable => None,
            RuntimeCommitDurability::Uncertain(warning) => Some(warning.clone()),
        }
    }
}

/// The commit of a config that is in place, whatever came of synchronising its
/// directory: that the commit may not be durable is a warning, not an error.
pub fn installed_commit(path: String, parent_sync: Result<(), String>) -> (res: RuntimeConfigCommit)
    ensures
        res.path == path,
        match (parent_sync, res.durability) {
            (Ok(_), RuntimeCommitDurability::Durable) => true,
            (Err(message), RuntimeCommitDurability::Uncertain(warning)) => warning@
                == "runtime config was atomically installed, but parent-directory synchronization failed: "@
                + message@,
            _ => false,
        },
{
    let durability: RuntimeCommitDurability = match parent_sync {
        Ok(_) => RuntimeCommitDurability::Durable,
        Err(message) => RuntimeCommitDurability::Uncertain(
            text::concat(
                "runtime config was atomically installed, but parent-directory synchronization failed: ",
                message.as_str(),
            ),
        ),
    };
    RuntimeConfigCommit { path, durability }
}

/// A config that was written and not yet put in place.
#[derive(Debug, PartialEq, Eq)]
pub struct StagedRuntimeConfig {
    pub path: String,
}

impl StagedRuntimeConfig {
    /// Where the config was written.
    pub fn path(&self) -> (res: &str)
        ensures
            res@ == self.path@,
    {
        self.path.as_str()
    }
}

/// A runtime config that was put aside before its successor came in.
#[derive(Debug, PartialEq, Eq)]
pub struct RuntimeConfigBackup {
    pub path: String,
    pub epoch: u64,
}

impl RuntimeConfigBackup {
    /// Where the backup is.
    pub fn path(&self) -> (res: &str)
        ensures
            res@ == self.path@,
    {
        self.path.as_str()
    }
}

/// What has to be done about a runtime directory before it is used.
#[derive(Debug, Clone, Copy, PartialEq, Eq, Structural)]
pub enum DirectoryAction {
    Use,
    Create,
}

/// Whether a runtime directory is used as it is or created.
pub fn directory_action(path: &str, lookup: Lookup) -> (res: Result<DirectoryAction, Error>)
    ensures
        match (lookup, res) {
            (Lookup::Found(metadata), Ok(action)) => metadata.plain_directory() && action
                == DirectoryAction::Use,
            (Lookup::Found(metadata), Err(error)) => !metadata.plain_directory() && error@
                == ErrorView::UnsafeRuntimeArtifact(path@),
            (Lookup::NotFound, Ok(action)) => action == DirectoryAction::Create,
            (Lookup::Failed(message), Err(error)) => error@ == ErrorView::Io(message@),
            _ => false,
        },
{
    match lookup {
        Lookup::Found(metadata) => match validate_directory_metadata(path, &metadata) {
            Ok(_) => Ok(DirectoryAction::Use),
            Err(error) => Err(error),
        },
        Lookup::NotFound => Ok(DirectoryAction::Create),
        Lookup::Failed(message) => Err(Error::Io(message)),
    }
}

/// Whether a staged config may be committed for an epoch, given whether its
/// directory is the store's and what its file name is.
pub open spec fn committable(in_store: bool, file_name: Option<Seq<char>>, epoch: u64) -> bool {
    in_store && file_name is Some && text::occurs_at(file_name->0, staged_prefix(epoch), 0)
}

/// Accepts a staged config for an epoch: it stands in the store's directory,
/// under a name that was made for the epoch.
pub fn validate_staged_name(
    path: &str,
    in_store: bool,
    file_name: &Option<String>,
    epoch: u64,
) -> (res: Result<(), Error>)
    ensures
        match res {
            Ok(_) => committable(in_store, crate::state::text_of(*file_name), epoch),
            Err(error) => !committable(in_store, crate::state::text_of(*file_name), epoch)
                && error@ == ErrorView::UnsafeRuntimeArtifact(path@),
        },
{
    let named: bool = match file_name {
        Some(name) => {
            let prefix: String = numbered(".config-", epoch, ".yaml.tmp-");
            text::starts_with(name.as_str(), prefix.as_str())
        },
        None => false,
    };
    if !in_store || !named {
        return Err(Error::UnsafeRuntimeArtifact(path.to_owned()));
    }
    Ok(())
}

/// The directory that holds a manager's runtime artifacts.
#[derive(Debug, PartialEq, Eq)]
pub struct RuntimeConfigStore {
    pub dir: String,
}

impl RuntimeConfigStore {
    /// Opens a store on a canonical directory; `dir` is none where the
    /// directory's name is not text.
    pub fn new(dir: Option<String>, metadata: &EntryMetadata) -> (res: Result<Self, Error>)
        ensures
            match (dir, res) {
                (Some(path), Ok(store)) => metadata.plain_directory() && store.dir == path,
                (Some(path), Err(error)) => !metadata.plain_directory() && error@
                    == ErrorView::UnsafeRuntimeArtifact(path@),
                (None, Err(error)) => error@ == ErrorView::InvalidManagerOptions(
                    "runtime directory is not UTF-8"@,
                ),
                _ => false,
            },
    {
        match dir {
            Some(dir) => match validate_directory_metadata(dir.as_str(), metadata) {
                Ok(_) => Ok(RuntimeConfigStore { dir }),
                Err(error) => Err(error),
            },
            None => Err(
                Error::InvalidManagerOptions("runtime directory is not UTF-8".to_owned()),
            ),
        }
    }

    /// The directory.
    pub fn dir(&self) -> (res: &str)
        ensures
            res@ == self.dir@,
    {
        self.dir.as_str()
    }

    /// Where the runtime config of an epoch is.
    pub fn runtime_path(&self, epoch: u64) -> (res: String)
        ensures
            path::under(self.dir@, config_name(epoch), res@),
    {
        proof {
            stable_names_are_plain(epoch);
        }
        let name: String = numbered("config-", epoch, ".yaml");
        path::join(self.dir.as_str(), name.as_str())
    }

    /// Where the pid record of an epoch is.
    pub fn pid_path(&self, epoch: u64) -> (res: String)
        ensures
            path::under(self.dir@, pid_name(epoch), res@),
    {
        proof {
            stable_names_are_plain(epoch);
        }
        let name: String = numbered("core-", epoch, ".pid");
        path::join(self.dir.as_str(), name.as_str())
    }

    /// Where the controller socket of an epoch is.
    pub fn socket_path(&self, epoch: u64) -> (res: String)
        ensures
            path::under(self.dir@, socket_name(epoch), res@),
    {
        proof {
            stable_names_are_plain(epoch);
        }
        let name: String = numbered("core-", epoch, ".sock");
        path::join(self.dir.as_str(), name.as_str())
    }

    /// Whether `accepted` tells if the file at `staging` may be committed for an
    /// epoch, for the paths whose file name and directory are the same on every
    /// machine.
    pub open spec fn accepts(&self, staging: Seq<char>, epoch: u64, accepted: bool) -> bool {
        forall|dir: Seq<char>, name: Seq<char>| #[trigger]
            path::splits(dir, name, staging) && path::portable(self.dir@) ==> accepted
                == committable(dir == self.dir@, Some(name), epoch)
    }

    /// Accepts a staged config for an epoch by its path. What the directory and
    /// the file name of another path than a portable one are depends on the
    /// machine; what they lead to is decided by [`validate_staged_name`].
    pub fn validate_staged(&self, staged: &StagedRuntimeConfig, epoch: u64) -> (res: Result<
        (),
        Error,
    >)
        ensures
            self.accepts(staged.path@, epoch, res is Ok),
            res matches Err(error) ==> error@ == ErrorView::UnsafeRuntimeArtifact(staged.path@),
            res is Ok ==> exists|name: Seq<char>, at: int|
                #![trigger text::occurs_at(staged.path@, name, at)]
                committable(true, Some(name), epoch) && text::occurs_at(staged.path@, name, at),
    {
        let in_store: bool = match path::parent(staged.path.as_str()) {
            Some(dir) => {
                let same: bool = path::same_path(dir.as_str(), self.dir.as_str());
                proof {
                    if path::portable(dir@) && path::portable(self.dir@) {
                        path::portable_paths_are_their_components(dir@, self.dir@, same);
                    }
                }
                same
            },
            None => false,
        };
        let name: Option<String> = path::file_name(staged.path.as_str());
        validate_staged_name(staged.path.as_str(), in_store, &name, epoch)
    }
}

proof fn lemma_plain(lead: Seq<char>, number: u64, tail: Seq<char>)
    requires
        lead.len() > 2,
        forall|i: int|
            0 <= i < lead.len() ==> #[trigger] lead[i] != '/' && lead[i] != '\\' && lead[i] != ':',
        forall|i: int|
            0 <= i < tail.len() ==> #[trigger] tail[i] != '/' && tail[i] != '\\' && tail[i] != ':',
    ensures
        path::plain_name(lead + text::decimal(number as nat) + tail),
{
    let digits = text::decimal(number as nat);
    let name = lead + digits + tail;
    text::lemma_decimal_value(number as nat);
    reveal_strlit(".");
    reveal_strlit("..");
    assert(name.len() > 2 && "."@.len() == 1 && ".."@.len() == 2);
    assert forall|i: int| 0 <= i < name.len() implies #[trigger] name[i] != '/' && name[i] != '\\'
        && name[i] != ':' by {
        if i < lead.len() {
            assert(name[i] == lead[i]);
        } else if i < lead.len() + digits.len() {
            assert(name[i] == digits[i - lead.len()]);
            assert(text::is_digit(digits[i - lead.len()]));
        } else {
            assert(name[i] == tail[i - lead.len() - digits.len()]);
        }
    }
}

/// The name of a derived config is a plain file name.
pub proof fn derived_names_are_plain(epoch: u64)
    ensures
        path::plain_name("epoch-"@ + text::decimal(epoch as nat) + ".yaml"@),
{
    reveal_strlit("epoch-");
    reveal_strlit(".yaml");
    lemma_plain("epoch-"@, epoch, ".yaml"@);
}

/// The names of backups and of staged configs are plain file names.
pub proof fn made_names_are_plain(epoch: u64, generation: u64, process: u32, counter: u64)
    ensures
        path::plain_name(backup_name(epoch, generation)),
        path::plain_name(staged_name(epoch, process, counter)),
{
    reveal_strlit("config-");
    reveal_strlit(".config-");
    reveal_strlit(".yaml.backup-");
    reveal_strlit(".yaml.tmp-");
    reveal_strlit("-");
    let tail = text::decimal(generation as nat);
    text::lemma_decimal_value(generation as nat);
    text::lemma_decimal_value(process as nat);
    text::lemma_decimal_value(counter as nat);
    lemma_digits_are_plain(generation);
    lemma_digits_are_plain(process as u64);
    lemma_digits_are_plain(counter);
    lemma_plain("config-"@, epoch, ".yaml.backup-"@ + tail);
    assert(backup_name(epoch, generation) =~= "config-"@ + text::decimal(epoch as nat) + (
    ".yaml.backup-"@ + tail));
    let rest = ".yaml.tmp-"@ + text::decimal(process as nat) + "-"@ + text::decimal(counter as nat);
    lemma_plain(".config-"@, epoch, rest);
    assert(staged_name(epoch, process, counter) =~= ".config-"@ + text::decimal(epoch as nat)
        + rest);
}

proof fn lemma_digits_are_plain(number: u64)
    ensures
        forall|i: int|
            0 <= i < text::decimal(number as nat).len() ==> #[trigger] text::decimal(
                number as nat,
            )[i] != '/' && text::decimal(number as nat)[i] != '\\' && text::decimal(
                number as nat,
            )[i] != ':',
{
    text::lemma_decimal_value(number as nat);
    let digits = text::decimal(number as nat);
    assert forall|i: int| 0 <= i < digits.len() implies #[trigger] digits[i] != '/' && digits[i]
        != '\\' && digits[i] != ':' by {
        assert(text::is_digit(digits[i]));
    }
}

/// The names of the stable artifacts are plain file names.
pub proof fn stable_names_are_plain(epoch: u64)
    ensures
        path::plain_name(config_name(epoch)),
        path::plain_name(pid_name(epoch)),
        path::plain_name(socket_name(epoch)),
{
    reveal_strlit("core-");
    reveal_strlit("config-");
    reveal_strlit(".pid");
    reveal_strlit(".sock");
    reveal_strlit(".yaml");
    lemma_plain("config-"@, epoch, ".yaml"@);
    lemma_plain("core-"@, epoch, ".pid"@);
    lemma_plain("core-"@, epoch, ".sock"@);
}

/// A config that was staged for an epoch in a portable directory may be
/// committed for that epoch, and for no other one.
pub proof fn a_staged_config_is_for_its_epoch(
    store: RuntimeConfigStore,
    epoch: u64,
    process: u32,
    counter: u64,
    staging: Seq<char>,
    other: u64,
    accepted: bool,
)
    requires
        path::portable(store.dir@),
        staging == store.dir@ + seq!['/'] + staged_name(epoch, process, counter),
        store.accepts(staging, other, accepted),
    ensures
        accepted == (other == epoch),
{
    let name = staged_name(epoch, process, counter);
    made_names_are_plain(epoch, 0, process, counter);
    assert(path::splits(store.dir@, name, staging));
    if other == epoch {
        assert(name.subrange(0, staged_prefix(epoch).len() as int) =~= staged_prefix(epoch));
    } else if text::occurs_at(name, staged_prefix(other), 0) {
        reveal_strlit(".config-");
        reveal_strlit(".yaml.tmp-");
        let mine = text::decimal(epoch as nat);
        let theirs = text::decimal(other as nat);
        text::lemma_decimal_value(epoch as nat);
        text::lemma_decimal_value(other as nat);
        text::decimal_round_trip(epoch);
        text::decimal_round_trip(other);
        let lead = ".config-"@.len() as int;
        let prefix = name.subrange(0, staged_prefix(other).len() as int);
        assert(prefix == staged_prefix(other));
        assert forall|i: int| 0 <= i < mine.len() implies name[lead + i] == #[trigger] mine[i] by {}
        assert forall|i: int| 0 <= i < theirs.len() implies name[lead + i] == #[trigger] theirs[i] by {
            assert(prefix[lead + i] == theirs[i]);
        }
        assert(name[lead + mine.len()] == '.');
        assert(prefix[lead + theirs.len()] == '.');
        if mine.len() < theirs.len() {
            assert(text::is_digit(theirs[mine.len() as int]));
        } else if theirs.len() < mine.len() {
            assert(text::is_digit(mine[theirs.len() as int]));
        } else {
            assert(mine =~= theirs);
        }
    }
}

/// No link, of either kind, ever passes for what it leads to.
pub proof fn links_are_never_followed(metadata: EntryMetadata, platform: Platform)
    ensures
        metadata.is_symlink || metadata.is_reparse_point ==> !metadata.regular()
            && !metadata.plain_directory() && !metadata.socket_like(platform),
        metadata.regular() ==> metadata.is_file,
        metadata.plain_directory() ==> metadata.is_dir,
        metadata.socket_like(Platform::Unix) ==> metadata.is_socket,
        !metadata.is_symlink && !metadata.is_reparse_point ==> (metadata.regular()
            <==> metadata.is_file) && (metadata.plain_directory() <==> metadata.is_dir) && (
        metadata.socket_like(Platform::Unix) <==> metadata.is_socket) && (metadata.socket_like(
            Platform::Windows,
        ) <==> metadata.is_file),
{
}

/// A place is free only if nothing was found there, and a file is there only if a
/// regular one was found: a lookup that failed is neither.
pub proof fn a_lookup_decides(path: Seq<char>, lookup: Lookup, missing: Seq<char>)
    ensures
        absent_fault(path, lookup) is None <==> lookup is NotFound,
        existing_fault(path, lookup, missing) is None <==> lookup is Found
            && lookup->Found_0.regular(),
        lookup is Found && !lookup->Found_0.regular() ==> absent_fault(path, lookup) == Some(
            ErrorView::UnsafeRuntimeArtifact(path),
        ) && existing_fault(path, lookup, missing) == Some(ErrorView::UnsafeRuntimeArtifact(path)),
        lookup is NotFound ==> existing_fault(path, lookup, missing) == Some(
            ErrorView::Io(missing),
        ),
        lookup matches Lookup::Failed(message) ==> absent_fault(path, lookup) == Some(
            ErrorView::Io(message@),
        ) && existing_fault(path, lookup, missing) == Some(ErrorView::Io(message@)),
{
}

/// A directory is taken for owned by another exactly if its lock is contended, in
/// the way that the platform tells it.
pub proof fn a_contended_lock_has_an_owner(platform: Platform, path: Seq<char>, failure: OsFailure)
    ensures
        lock_refusal(platform, path, failure) is RuntimeDirectoryOwned <==> match platform {
            Platform::Unix => failure.would_block || failure.permission_denied,
            Platform::Windows => failure.code is Some && (failure.code->0 == 5 || failure.code->0
                == 32 || failure.code->0 == 33),
        },
        lock_refusal(platform, path, failure) is RuntimeDirectoryOwned || lock_refusal(
            platform,
            path,
            failure,
        ) == ErrorView::Io(failure.message@),
{
}

/// Only a staged file of the epoch, in the store itself, can be committed.
pub proof fn only_staged_files_of_the_epoch_are_committed(
    in_store: bool,
    file_name: Option<Seq<char>>,
    epoch: u64,
    process: u32,
    counter: u64,
)
    ensures
        committable(in_store, file_name, epoch) ==> in_store && file_name is Some,
        committable(true, Some(staged_name(epoch, process, counter)), epoch),
{
    let name = staged_name(epoch, process, counter);
    let lead = staged_prefix(epoch);
    assert(name.subrange(0, lead.len() as int) =~= lead);
}

/// A directory that anyone could write to is refused: whoever it names in its
/// list, each of the broad principals is found, wherever it stands.
pub proof fn broad_principals_are_found(sddl: Seq<char>, at: int)
    ensures
        text::occurs_at(sddl, ";;;WD)"@, at) ==> names_broad_principal(sddl),
        text::occurs_at(sddl, ";;;AU)"@, at) ==> names_broad_principal(sddl),
        text::occurs_at(sddl, ";;;BU)"@, at) ==> names_broad_principal(sddl),
        text::occurs_at(sddl, ";;;IU)"@, at) ==> names_broad_principal(sddl),
        text::occurs_at(sddl, ";;;AN)"@, at) ==> names_broad_principal(sddl),
        text::occurs_at(sddl, ";;;NU)"@, at) ==> names_broad_principal(sddl),
{
    text::lemma_find_from(sddl, ";;;WD)"@, 0);
    text::lemma_find_from(sddl, ";;;AU)"@, 0);
    text::lemma_find_from(sddl, ";;;BU)"@, 0);
    text::lemma_find_from(sddl, ";;;IU)"@, 0);
    text::lemma_find_from(sddl, ";;;AN)"@, 0);
    text::lemma_find_from(sddl, ";;;NU)"@, 0);
}

/// A list is protected exactly if the bit for it is set.
pub proof fn protection_is_one_bit(control: u16)
    ensures
        acl_protected(control) <==> (control / 4096) % 2 == 1,
{
    assert((control & 0x1000 != 0) == ((control / 4096) % 2 == 1)) by (bit_vector);
}

} // verus!
