//! What a core binary can do: its version, asked for once per binary, and the
//! features that follow from it.

use crate::error::{Error, ErrorView};
use crate::feature;
use crate::feature::{Feature, Support};
use crate::kind::CoreKind;
use crate::path;
use crate::platform::Platform;
use crate::spec::CoreSpec;
use crate::state;
use crate::text;
use vstd::prelude::*;
use vstd::string::*;

verus! {

/// The version of a binary as it was at one time of modification.
#[derive(Debug, PartialEq, Eq)]
pub struct CachedVersion {
    pub binary_path: String,
    /// Nanoseconds since the Unix epoch.
    pub modified: i128,
    pub version: String,
}

/// The content of a [`CachedVersion`].
pub struct CachedVersionView {
    pub binary_path: Seq<char>,
    pub modified: i128,
    pub version: Seq<char>,
}

impl View for CachedVersion {
    type V = CachedVersionView;

    open spec fn view(&self) -> CachedVersionView {
        CachedVersionView {
            binary_path: self.binary_path@,
            modified: self.modified,
            version: self.version@,
        }
    }
}

/// The versions that were found so far, one for each binary at most.
#[derive(Debug, PartialEq, Eq)]
pub struct VersionCache {
    pub entries: Vec<CachedVersion>,
}

impl View for VersionCache {
    type V = Seq<CachedVersionView>;

    open spec fn view(&self) -> Seq<CachedVersionView> {
        Seq::new(self.entries@.len(), |i: int| self.entries@[i]@)
    }
}

/// Whether two paths are known to be the same on every machine.
pub open spec fn surely_same(a: Seq<char>, b: Seq<char>) -> bool {
    !path::agrees(a, b, false)
}

/// Whether no binary has two entries, as far as the machine does not matter.
pub open spec fn one_per_binary(entries: Seq<CachedVersionView>) -> bool {
    forall|i: int, j: int|
        0 <= i < j < entries.len() ==> !surely_same(
            (#[trigger] entries[i]).binary_path,
            (#[trigger] entries[j]).binary_path,
        )
}

/// Whether `same` tells of each entry if its path is equal to `binary_path`.
pub open spec fn compared(
    entries: Seq<CachedVersionView>,
    binary_path: Seq<char>,
    same: Seq<bool>,
) -> bool {
    same.len() == entries.len() && forall|i: int|
        0 <= i < entries.len() ==> path::agrees(
            (#[trigger] entries[i]).binary_path,
            binary_path,
            same[i],
        )
}

/// The version that the first of the entries of a binary as modified then holds,
/// from position `from` on. `same` tells which entries are of that binary.
pub open spec fn found(
    entries: Seq<CachedVersionView>,
    same: Seq<bool>,
    modified: i128,
    from: int,
) -> Option<Seq<char>>
    decreases entries.len() - from,
{
    if from < 0 || from >= entries.len() {
        None
    } else if same[from] && entries[from].modified == modified {
        Some(entries[from].version)
    } else {
        found(entries, same, modified, from + 1)
    }
}

/// What the cache knows of a binary as modified then.
pub open spec fn known(entries: Seq<CachedVersionView>, same: Seq<bool>, modified: i128) -> Option<
    Seq<char>,
> {
    found(entries, same, modified, 0)
}

/// The entries of other binaries.
pub open spec fn of_others(entries: Seq<CachedVersionView>, same: Seq<bool>) -> Seq<
    CachedVersionView,
>
    decreases entries.len(),
{
    if entries.len() == 0 {
        entries
    } else if same[entries.len() - 1] {
        of_others(entries.drop_last(), same)
    } else {
        of_others(entries.drop_last(), same).push(entries.last())
    }
}

proof fn lemma_of_others(entries: Seq<CachedVersionView>, same: Seq<bool>)
    ensures
        one_per_binary(entries) ==> one_per_binary(of_others(entries, same)),
        forall|i: int|
            0 <= i < of_others(entries, same).len() ==> exists|k: int|
                0 <= k < entries.len() && !same[k] && entries[k] == #[trigger] of_others(
                    entries,
                    same,
                )[i],
    decreases entries.len(),
{
    if entries.len() > 0 {
        let head = entries.drop_last();
        lemma_of_others(head, same);
        let kept = of_others(head, same);
        let res = of_others(entries, same);
        assert forall|i: int| 0 <= i < res.len() implies exists|k: int|
            0 <= k < entries.len() && !same[k] && entries[k] == #[trigger] res[i] by {
            if i < kept.len() {
                assert(res[i] == kept[i]);
                let k = choose|k: int| 0 <= k < head.len() && !same[k] && head[k] == kept[i];
                assert(entries[k] == res[i]);
            } else {
                assert(entries[entries.len() - 1] == res[i]);
            }
        }
        if one_per_binary(entries) {
            assert(one_per_binary(head)) by {
                assert forall|i: int, j: int| 0 <= i < j < head.len() implies !surely_same(
                    (#[trigger] head[i]).binary_path,
                    (#[trigger] head[j]).binary_path,
                ) by {
                    assert(head[i] == entries[i] && head[j] == entries[j]);
                }
            }
            assert forall|i: int, j: int| 0 <= i < j < res.len() implies !surely_same(
                (#[trigger] res[i]).binary_path,
                (#[trigger] res[j]).binary_path,
            ) by {
                assert(res[i] == kept[i]);
                if j < kept.len() {
                    assert(res[j] == kept[j]);
                } else {
                    let k = choose|k: int| 0 <= k < head.len() && !same[k] && head[k] == kept[i];
                    assert(entries[k] == head[k]);
                    assert(entries[entries.len() - 1] == res[j]);
                }
            }
        }
    }
}

impl VersionCache {
    /// An empty cache.
    pub fn new() -> (res: Self)
        ensures
            res@ == Seq::<CachedVersionView>::empty(),
            one_per_binary(res@),
    {
        let res: VersionCache = VersionCache { entries: Vec::new() };
        assert(res@ =~= Seq::<CachedVersionView>::empty());
        res
    }

    fn compare(&self, binary_path: &str) -> (res: Vec<bool>)
        ensures
            compared(self@, binary_path@, res@),
    {
        let mut res: Vec<bool> = Vec::new();
        let mut i: usize = 0;
        while i < self.entries.len()
            invariant
                i <= self.entries.len(),
                res.len() == i,
                forall|j: int|
                    0 <= j < i ==> path::agrees(
                        (#[trigger] self@[j]).binary_path,
                        binary_path@,
                        res@[j],
                    ),
            decreases self.entries.len() - i,
        {
            assert(self@[i as int] == self.entries@[i as int]@);
            res.push(path::same_path(self.entries[i].binary_path.as_str(), binary_path));
            i = i + 1;
        }
        res
    }

    /// What the cache knows of a binary as modified then. `same` tells of each
    /// entry if its path is that of the binary.
    pub fn find(&self, same: &Vec<bool>, modified: i128) -> (res: Option<String>)
        requires
            same.len() == self.entries.len(),
        ensures
            state::text_of(res) == known(self@, same@, modified),
    {
        let mut i: usize = 0;
        while i < self.entries.len()
            invariant
                i <= self.entries.len(),
                same.len() == self.entries.len(),
                known(self@, same@, modified) == found(self@, same@, modified, i as int),
            decreases self.entries.len() - i,
        {
            let entry: &CachedVersion = &self.entries[i];
            assert(self@[i as int] == entry@);
            if same[i] && entry.modified == modified {
                return Some(entry.version.clone());
            }
            i = i + 1;
        }
        None
    }

    /// What the cache knows of a binary as modified then. Its path is compared
    /// component by component; where components end depends on the machine, but
    /// for slashed paths. What that leads to is decided by
    /// [`VersionCache::find`].
    pub fn get(&self, binary_path: &str, modified: i128) -> (res: Option<String>)
        ensures
            exists|same: Seq<bool>| #[trigger]
                compared(self@, binary_path@, same) && state::text_of(res) == known(
                    self@,
                    same,
                    modified,
                ),
    {
        let same: Vec<bool> = self.compare(binary_path);
        assert(compared(self@, binary_path@, same@));
        self.find(&same, modified)
    }

    /// Remembers the version of a binary in place of what was known of it. `same`
    /// tells of each entry if its path is that of the binary.
    pub fn remember(&mut self, same: &Vec<bool>, binary_path: &str, modified: i128, version: &str)
        requires
            same.len() == old(self).entries.len(),
        ensures
            final(self)@ == of_others(old(self)@, same@).push(
                CachedVersionView { binary_path: binary_path@, modified, version: version@ },
            ),
    {
        let ghost all = self@;
        let mut kept: Vec<CachedVersion> = Vec::new();
        let mut i: usize = 0;
        let ghost shown: Seq<CachedVersionView> = Seq::empty();
        assert(all.take(0) =~= Seq::<CachedVersionView>::empty());
        while i < self.entries.len()
            invariant
                i <= self.entries.len(),
                same.len() == self.entries.len(),
                self@ == all,
                shown == Seq::new(kept@.len(), |k: int| kept@[k]@),
                shown == of_others(all.take(i as int), same@),
            decreases self.entries.len() - i,
        {
            let entry: &CachedVersion = &self.entries[i];
            assert(all.take(i + 1).drop_last() =~= all.take(i as int));
            assert(all.take(i + 1).last() == entry@);
            if !same[i] {
                let copy: CachedVersion = CachedVersion {
                    binary_path: entry.binary_path.clone(),
                    modified: entry.modified,
                    version: entry.version.clone(),
                };
                let ghost before = shown;
                kept.push(copy);
                proof {
                    shown = Seq::new(kept@.len(), |k: int| kept@[k]@);
                    assert(shown =~= before.push(entry@));
                }
            }
            i = i + 1;
        }
        assert(all.take(all.len() as int) =~= all);
        kept.push(
            CachedVersion {
                binary_path: binary_path.to_owned(),
                modified,
                version: version.to_owned(),
            },
        );
        self.entries = kept;
        proof {
            let fresh = CachedVersionView { binary_path: binary_path@, modified, version: version@ };
            assert(self@ =~= of_others(all, same@).push(fresh));
        }
    }
}

/// What is remembered of a binary leaves one entry for each.
proof fn lemma_one_remembered(
    entries: Seq<CachedVersionView>,
    same: Seq<bool>,
    fresh: CachedVersionView,
)
    requires
        one_per_binary(entries),
        compared(entries, fresh.binary_path, same),
    ensures
        one_per_binary(of_others(entries, same).push(fresh)),
{
    lemma_of_others(entries, same);
    let others = of_others(entries, same);
    let res = others.push(fresh);
    assert forall|i: int, j: int| 0 <= i < j < res.len() implies !surely_same(
        (#[trigger] res[i]).binary_path,
        (#[trigger] res[j]).binary_path,
    ) by {
        assert(res[i] == others[i]);
        if j < others.len() {
            assert(res[j] == others[j]);
        } else {
            let k = choose|k: int| 0 <= k < entries.len() && !same[k] && entries[k] == others[i];
            assert(path::agrees(entries[k].binary_path, fresh.binary_path, same[k]));
        }
    }
}

/// What looking at a binary gave.
#[derive(Debug, PartialEq, Eq)]
pub enum BinaryLookup {
    Missing,
    /// There is no time of modification, for this reason.
    NoTime(String),
    Modified(i128),
}

/// The time at which a binary was modified last.
pub fn binary_modified(binary_path: &str, lookup: BinaryLookup) -> (res: Result<i128, Error>)
    ensures
        match (lookup, res) {
            (BinaryLookup::Missing, Err(error)) => error@ == ErrorView::BinaryNotFound(
                binary_path@,
            ),
            (BinaryLookup::NoTime(detail), Err(error)) => error@
                == ErrorView::CoreVersionProbeFailed {
                binary_path: binary_path@,
                detail: detail@,
            },
            (BinaryLookup::Modified(time), Ok(modified)) => modified == time,
            _ => false,
        },
{
    match lookup {
        BinaryLookup::Missing => Err(Error::BinaryNotFound(binary_path.to_owned())),
        BinaryLookup::NoTime(detail) => Err(
            Error::CoreVersionProbeFailed { binary_path: binary_path.to_owned(), detail },
        ),
        BinaryLookup::Modified(time) => Ok(time),
    }
}

/// What running a binary for its version gave.
#[derive(Debug, PartialEq, Eq)]
pub enum VersionRun {
    Failed(String),
    Exited { success: bool, code: Option<i32>, stdout: String, stderr: String },
}

/// How an optional exit code reads in its debug form.
pub open spec fn shown_code(code: Option<i32>) -> Seq<char> {
    match code {
        Some(code) => "Some("@ + text::signed_decimal(code as int) + ")"@,
        None => "None"@,
    }
}

fn show_code(code: Option<i32>) -> (res: String)
    ensures
        res@ == shown_code(code),
{
    match code {
        Some(code) => {
            let digits: String = text::signed_decimal_text(code);
            text::concat3("Some(", digits.as_str(), ")")
        },
        None => "None".to_owned(),
    }
}

/// What a run tells of the version: the trimmed output, or the trimmed error
/// output where there is none; else what went wrong.
pub open spec fn version_told(run: VersionRun) -> Result<Seq<char>, Seq<char>> {
    match run {
        VersionRun::Failed(detail) => Err(detail@),
        VersionRun::Exited { success, code, stdout, stderr } => if !success {
            Err("process exited with code "@ + shown_code(code))
        } else if text::trimmed(stdout@).len() > 0 {
            Ok(text::trimmed(stdout@))
        } else if text::trimmed(stderr@).len() > 0 {
            Ok(text::trimmed(stderr@))
        } else {
            Err("version command produced no output"@)
        },
    }
}

/// What a run of a binary tells of its version.
pub fn probe_version(binary_path: &str, run: VersionRun) -> (res: Result<String, Error>)
    ensures
        match (res, version_told(run)) {
            (Ok(version), Ok(told)) => version@ == told,
            (Err(error), Err(detail)) => error@ == ErrorView::CoreVersionProbeFailed {
                binary_path: binary_path@,
                detail,
            },
            _ => false,
        },
        run matches VersionRun::Exited { success, stdout, stderr, .. } ==> {
            &&& res is Ok <==> success && !(text::blank(stdout@) && text::blank(stderr@))
            &&& res is Ok && !text::blank(stdout@) ==> text::stripped(res->Ok_0@, stdout@)
            &&& res is Ok && text::blank(stdout@) ==> text::stripped(res->Ok_0@, stderr@)
        },
{
    match run {
        VersionRun::Failed(detail) => Err(
            Error::CoreVersionProbeFailed { binary_path: binary_path.to_owned(), detail },
        ),
        VersionRun::Exited { success, code, stdout, stderr } => {
            proof {
                text::trimming_strips_white_space(stdout@);
                text::trimming_strips_white_space(stderr@);
            }
            if !success {
                let shown: String = show_code(code);
                return Err(
                    Error::CoreVersionProbeFailed {
                        binary_path: binary_path.to_owned(),
                        detail: text::concat("process exited with code ", shown.as_str()),
                    },
                );
            }
            let output: String = text::trim(stdout.as_str());
            let version: String = if output.as_str().is_empty() {
                text::trim(stderr.as_str())
            } else {
                output
            };
            if version.as_str().is_empty() {
                return Err(
                    Error::CoreVersionProbeFailed {
                        binary_path: binary_path.to_owned(),
                        detail: "version command produced no output".to_owned(),
                    },
                );
            }
            Ok(version)
        },
    }
}

/// A step of finding the version of a binary.
#[derive(Debug, PartialEq, Eq)]
pub enum VersionStep {
    /// The binary is looked at.
    Inspect { binary_path: String },
    /// The binary is run.
    Probe { binary_path: String, modified: i128 },
    /// The binary is looked at again.
    Recheck { binary_path: String, modified: i128, version: String },
}

/// What came of a [`VersionStep`].
#[derive(Debug, PartialEq, Eq)]
pub enum VersionReport {
    Inspected(BinaryLookup),
    Probed(VersionRun),
}

/// Where finding a version stands.
#[derive(Debug, PartialEq, Eq)]
pub enum VersionProgress {
    Continue(VersionStep),
    Finished(Result<String, Error>),
}

impl VersionCache {
    /// Begins to find the version of a core: what its spec says comes first.
    pub fn resolve(&self, spec: &CoreSpec) -> (res: VersionProgress)
        ensures
            match spec.version {
                Some(version) => res == VersionProgress::Finished(Ok(version)),
                None => res == VersionProgress::Continue(
                    VersionStep::Inspect { binary_path: spec.binary_path },
                ),
            },
    {
        match &spec.version {
            Some(version) => VersionProgress::Finished(Ok(version.clone())),
            None => VersionProgress::Continue(
                VersionStep::Inspect { binary_path: spec.binary_path.clone() },
            ),
        }
    }

    /// Goes on with the time of modification: a version known for it is used,
    /// else the binary is run.
    pub fn inspected(&self, binary_path: String, lookup: BinaryLookup) -> (res: VersionProgress)
        ensures
            match (lookup, res) {
                (BinaryLookup::Modified(time), VersionProgress::Finished(Ok(version))) => exists|
                    same: Seq<bool>,
                | #[trigger]
                    compared(self@, binary_path@, same) && known(self@, same, time) == Some(
                        version@,
                    ),
                (BinaryLookup::Modified(time), VersionProgress::Continue(step)) => step
                    == (VersionStep::Probe { binary_path, modified: time }) && exists|
                    same: Seq<bool>,
                | #[trigger]
                    compared(self@, binary_path@, same) && known(self@, same, time) is None,
                (BinaryLookup::Missing, VersionProgress::Finished(Err(error))) => error@
                    == ErrorView::BinaryNotFound(binary_path@),
                (BinaryLookup::NoTime(detail), VersionProgress::Finished(Err(error))) => error@
                    == ErrorView::CoreVersionProbeFailed {
                    binary_path: binary_path@,
                    detail: detail@,
                },
                _ => false,
            },
    {
        match binary_modified(binary_path.as_str(), lookup) {
            Ok(modified) => match self.get(binary_path.as_str(), modified) {
                Some(version) => VersionProgress::Finished(Ok(version)),
                None => VersionProgress::Continue(VersionStep::Probe { binary_path, modified }),
            },
            Err(error) => VersionProgress::Finished(Err(error)),
        }
    }

    /// Goes on with the run of the binary: the binary is looked at again before
    /// its version is believed.
    pub fn probed(&self, binary_path: String, modified: i128, run: VersionRun) -> (res:
        VersionProgress)
        ensures
            match (version_told(run), res) {
                (
                    Ok(told),
                    VersionProgress::Continue(
                        VersionStep::Recheck { binary_path: path, modified: time, version },
                    ),
                ) => path == binary_path && time == modified && version@ == told,
                (Err(detail), VersionProgress::Finished(Err(error))) => error@
                    == ErrorView::CoreVersionProbeFailed { binary_path: binary_path@, detail },
                _ => false,
            },
    {
        match probe_version(binary_path.as_str(), run) {
            Ok(version) => VersionProgress::Continue(
                VersionStep::Recheck { binary_path, modified, version },
            ),
            Err(error) => VersionProgress::Finished(Err(error)),
        }
    }

    /// Ends with the second look at the binary: a version is remembered only if
    /// the binary was not replaced meanwhile, and it takes the place of what was
    /// known of that binary.
    pub fn rechecked(
        &mut self,
        binary_path: String,
        modified: i128,
        version: String,
        lookup: BinaryLookup,
    ) -> (res: Result<String, Error>)
        requires
            one_per_binary(old(self)@),
        ensures
            one_per_binary(final(self)@),
            match (lookup, res) {
                (BinaryLookup::Modified(time), Ok(told)) => time == modified && told == version
                    && exists|same: Seq<bool>| #[trigger]
                    compared(old(self)@, binary_path@, same) && final(self)@ == of_others(
                        old(self)@,
                        same,
                    ).push(
                        CachedVersionView {
                            binary_path: binary_path@,
                            modified,
                            version: version@,
                        },
                    ),
                (BinaryLookup::Modified(time), Err(error)) => time != modified && final(self)@
                    == old(self)@ && error@ == ErrorView::CoreVersionProbeFailed {
                    binary_path: binary_path@,
                    detail:
                        "core binary changed during version probe; retry with the replacement binary"@,
                },
                (BinaryLookup::Missing, Err(error)) => final(self)@ == old(self)@ && error@
                    == ErrorView::BinaryNotFound(binary_path@),
                (BinaryLookup::NoTime(detail), Err(error)) => final(self)@ == old(self)@ && error@
                    == ErrorView::CoreVersionProbeFailed {
                    binary_path: binary_path@,
                    detail: detail@,
                },
                _ => false,
            },
    {
        let again: i128 = match binary_modified(binary_path.as_str(), lookup) {
            Ok(again) => again,
            Err(error) => {
                return Err(error);
            },
        };
        if again != modified {
            return Err(
                Error::CoreVersionProbeFailed {
                    binary_path,
                    detail:
                        "core binary changed during version probe; retry with the replacement binary".to_owned(),
                },
            );
        }
        let same: Vec<bool> = self.compare(binary_path.as_str());
        proof {
            let fresh = CachedVersionView {
                binary_path: binary_path@,
                modified,
                version: version@,
            };
            assert(compared(self@, binary_path@, same@));
            lemma_one_remembered(self@, same@, fresh);
        }
        self.remember(&same, binary_path.as_str(), modified, version.as_str());
        Ok(version)
    }
}

/// Whether `same` can be the equality of paths on a machine.
pub open spec fn path_equality(same: spec_fn(Seq<char>, Seq<char>) -> bool) -> bool {
    &&& forall|a: Seq<char>, b: Seq<char>| path::agrees(a, b, #[trigger] same(a, b))
    &&& forall|a: Seq<char>, b: Seq<char>| #[trigger] same(a, b) ==> same(b, a)
    &&& forall|a: Seq<char>, b: Seq<char>, c: Seq<char>|
        #[trigger] same(a, b) && #[trigger] same(b, c) ==> same(a, c)
}

/// Which entries are of a binary, on a machine.
pub open spec fn marked(
    entries: Seq<CachedVersionView>,
    same: spec_fn(Seq<char>, Seq<char>) -> bool,
    binary_path: Seq<char>,
) -> Seq<bool> {
    Seq::new(entries.len(), |i: int| same(entries[i].binary_path, binary_path))
}

proof fn lemma_found_fresh(
    entries: Seq<CachedVersionView>,
    same: Seq<bool>,
    modified: i128,
    from: int,
)
    requires
        0 <= from < entries.len(),
        same.len() == entries.len(),
        same.last(),
        forall|i: int| from <= i < entries.len() - 1 ==> !#[trigger] same[i],
    ensures
        found(entries, same, modified, from) == if entries.last().modified == modified {
            Some(entries.last().version)
        } else {
            None
        },
    decreases entries.len() - from,
{
    if from + 1 < entries.len() {
        lemma_found_fresh(entries, same, modified, from + 1);
    } else {
        assert(found(entries, same, modified, from + 1) is None);
    }
}

/// What was remembered of a binary is found again under every path that is equal
/// to its own, for the time it was remembered for and for no other.
pub proof fn the_cache_answers_for_one_modification(
    same: spec_fn(Seq<char>, Seq<char>) -> bool,
    entries: Seq<CachedVersionView>,
    fresh: CachedVersionView,
    asked: Seq<char>,
    modified: i128,
)
    requires
        path_equality(same),
        same(asked, fresh.binary_path),
    ensures
        ({
            let after = of_others(entries, marked(entries, same, fresh.binary_path)).push(fresh);
            known(after, marked(after, same, asked), modified) == if modified == fresh.modified {
                Some(fresh.version)
            } else {
                None
            }
        }),
{
    let marks = marked(entries, same, fresh.binary_path);
    let others = of_others(entries, marks);
    let after = others.push(fresh);
    let flags = marked(after, same, asked);
    lemma_of_others(entries, marks);
    assert(same(fresh.binary_path, asked));
    assert forall|i: int| 0 <= i < after.len() - 1 implies !#[trigger] flags[i] by {
        assert(after[i] == others[i]);
        let k = choose|k: int| 0 <= k < entries.len() && !marks[k] && entries[k] == others[i];
        if same(after[i].binary_path, asked) {
            assert(same(entries[k].binary_path, fresh.binary_path));
        }
    }
    lemma_found_fresh(after, flags, modified, 0);
}

/// The features of a core, and its version where it had to be found.
#[derive(Debug, PartialEq, Eq)]
pub struct ResolvedFeatures {
    pub system_pipe_ipc: bool,
    pub version: Option<String>,
}

/// Whether some version of a kind has a feature, so that its version matters.
pub open spec fn version_matters(kind: CoreKind, platform: Platform) -> bool {
    feature::local_transport_floor(kind, platform) is Some
}

/// Whether some version of a kind has a feature, so that its version matters.
pub fn needs_version(kind: CoreKind, platform: Platform) -> (res: bool)
    ensures
        res == version_matters(kind, platform),
{
    match kind.supports(Feature::SystemPipeIpc, platform, None) {
        Support::No => false,
        _ => true,
    }
}

/// The features of a core. `found` is the version that was found where it
/// matters, and `semantic` what of it is a semantic version.
pub fn resolve_features(
    core: &CoreSpec,
    platform: Platform,
    found: Result<String, Error>,
    semantic: Option<&str>,
) -> (res: Result<ResolvedFeatures, Error>)
    ensures
        if !version_matters(core.kind, platform) {
            res == Ok::<ResolvedFeatures, Error>(
                ResolvedFeatures { system_pipe_ipc: false, version: core.version },
            )
        } else {
            match (found, res) {
                (Ok(version), Ok(features)) => features.version == Some(version)
                    && features.system_pipe_ipc == (feature::support_of(
                    core.kind,
                    Feature::SystemPipeIpc,
                    platform,
                    feature::text_in(semantic),
                ) is Yes),
                (Err(before), Err(after)) => after == before,
                _ => false,
            }
        },
{
    if !needs_version(core.kind, platform) {
        return Ok(
            ResolvedFeatures {
                system_pipe_ipc: false,
                version: crate::share::copy_text(&core.version),
            },
        );
    }
    match found {
        Ok(version) => {
            let system_pipe_ipc: bool = match core.kind.supports(
                Feature::SystemPipeIpc,
                platform,
                semantic,
            ) {
                Support::Yes => true,
                _ => false,
            };
            Ok(ResolvedFeatures { system_pipe_ipc, version: Some(version) })
        },
        Err(error) => Err(error),
    }
}

/// The version is what a successful run writes to its output, without the white
/// space around it, whatever it writes to its error output. Only where the
/// output is blank does the error output tell the version, in the same way; and
/// only where both are blank is there none.
pub proof fn a_run_tells_its_output(
    code: Option<i32>,
    other_code: Option<i32>,
    stdout: String,
    stderr: String,
    other: String,
)
    ensures
        ({
            let told = version_told(VersionRun::Exited { success: true, code, stdout, stderr });
            let beside = version_told(
                VersionRun::Exited { success: true, code: other_code, stdout, stderr: other },
            );
            let swapped = version_told(
                VersionRun::Exited { success: true, code, stdout: stderr, stderr: stdout },
            );
            &&& told is Err <==> text::blank(stdout@) && text::blank(stderr@)
            &&& !text::blank(stdout@) ==> told is Ok && text::stripped(told->Ok_0, stdout@)
            &&& !text::blank(stdout@) ==> beside == told
            &&& text::blank(stdout@) && !text::blank(stderr@) ==> told is Ok && text::stripped(
                told->Ok_0,
                stderr@,
            )
            &&& text::blank(stdout@) ==> told == swapped
            &&& told is Err && beside is Err ==> told == beside
        }),
{
    text::trimming_strips_white_space(stdout@);
    text::trimming_strips_white_space(stderr@);
    text::trimming_strips_white_space(other@);
}

/// A run that fails tells no version, whatever it writes, but why it failed.
pub proof fn a_failed_run_tells_no_version(
    detail: String,
    code: Option<i32>,
    stdout: String,
    stderr: String,
    other: String,
)
    ensures
        version_told(VersionRun::Failed(detail)) == Err::<Seq<char>, Seq<char>>(detail@),
        ({
            let told = version_told(VersionRun::Exited { success: false, code, stdout, stderr });
            &&& told is Err
            &&& told == version_told(
                VersionRun::Exited { success: false, code, stdout: other, stderr: other },
            )
        }),
{
}

/// The version of a core matters exactly if some version of its kind has a
/// feature that others lack.
pub proof fn only_some_kinds_need_a_version(kind: CoreKind, platform: Platform)
    ensures
        version_matters(kind, platform) <==> kind == CoreKind::Mihomo || kind
            == CoreKind::ClashRust,
        !version_matters(kind, platform) ==> forall|version: Option<Seq<char>>| #[trigger]
            feature::support_of(kind, Feature::SystemPipeIpc, platform, version) is No,
{
}

} // verus!
