//! What installations do to the ordinary files of a disk.

use super::install::{
    FileReport, FileWorkView, InstallGoal, InstallProgressView, InstallStepView, InstallationView,
    InstalledView,
};
use super::{Lookup, RuntimeConfigStore};
use crate::error::ErrorView;
use crate::path;
use crate::runtime_store;
use crate::text;
use vstd::prelude::*;
use vstd::string::*;

verus! {

/// Whether `after` is `files` but for one path, which holds `contents` there.
pub open spec fn written(
    files: Map<Seq<char>, Seq<u8>>,
    path: Seq<char>,
    contents: Seq<u8>,
    after: Map<Seq<char>, Seq<u8>>,
) -> bool {
    after == files.insert(path, contents)
}

/// What a disk that holds the ordinary files `files` may do and report when it
/// is asked for `work`: it keeps what it was given, gives that back, and an
/// operation that fails changes no other file than the one it writes.
pub open spec fn performed(
    files: Map<Seq<char>, Seq<u8>>,
    work: FileWorkView,
    report: FileReport,
    after: Map<Seq<char>, Seq<u8>>,
) -> bool {
    match (work, report) {
        (FileWorkView::LookUp { path }, FileReport::LookedUp { lookup, .. }) => {
            &&& after == files
            &&& lookup matches Lookup::Found(metadata) ==> (metadata.regular()
                == files.contains_key(path))
            &&& lookup is NotFound ==> !files.contains_key(path)
        },
        (FileWorkView::Read { path }, FileReport::Contents { contents }) => after == files
            && files.contains_key(path) && contents@ == files[path],
        (FileWorkView::Create { path }, FileReport::Done) => !files.contains_key(path) && written(
            files,
            path,
            Seq::empty(),
            after,
        ),
        (FileWorkView::Create { path }, FileReport::Failed { .. }) => after == files || (
        !files.contains_key(path) && written(files, path, Seq::empty(), after)),
        (FileWorkView::Write { path, contents }, FileReport::Done) => written(
            files,
            path,
            contents,
            after,
        ),
        (FileWorkView::Write { path, .. }, FileReport::Failed { .. }) => exists|part: Seq<u8>|
            written(files, path, part, after),
        (FileWorkView::Move { from, to }, FileReport::Done) => files.contains_key(from)
            && !files.contains_key(to) && after == files.remove(from).insert(to, files[from]),
        (FileWorkView::Move { from, to }, FileReport::Failed { .. }) => after == files || (
        files.contains_key(from) && !files.contains_key(to) && written(
            files,
            to,
            files[from],
            after,
        )),
        (FileWorkView::Replace { from, to }, FileReport::Done) => files.contains_key(from) && after
            == files.remove(from).insert(to, files[from]),
        (FileWorkView::Remove { path }, FileReport::Done) => after == files.remove(path),
        _ => after == files && (report is Failed || work is Sync),
    }
}

/// What a disk did during a run: the report on each operation, and the files
/// after it.
pub struct Event {
    pub report: FileReport,
    pub after: Map<Seq<char>, Seq<u8>>,
}

impl InstallationView {
    /// Whether the run goes from `step` to the end `result` on a disk that holds
    /// `files` at first and does what `events` say.
    pub open spec fn ends(
        self,
        step: InstallStepView,
        files: Map<Seq<char>, Seq<u8>>,
        events: Seq<Event>,
        result: Result<InstalledView, ErrorView>,
    ) -> bool
        decreases events.len(),
    {
        events.len() > 0 && performed(files, self.work(step), events[0].report, events[0].after)
            && match self.advanced(step, events[0].report) {
            InstallProgressView::Continue(next) => self.ends(
                next,
                events[0].after,
                events.skip(1),
                result,
            ),
            InstallProgressView::End(end) => events.len() == 1 && end == result,
        }
    }

    /// What holds of the files at a step, where `contents` are to be installed
    /// and the destination held `before` at first: it still does, until all of
    /// `contents` are there.
    pub open spec fn holds_at(
        self,
        step: InstallStepView,
        files: Map<Seq<char>, Seq<u8>>,
        before: Option<Seq<u8>>,
        contents: Seq<u8>,
    ) -> bool {
        match step {
            InstallStepView::LookSource { source } => content_at(files, self.destination) == before
                && content_at(files, source) == Some(contents),
            InstallStepView::ReadSource { source } => content_at(files, self.destination) == before
                && content_at(files, source) == Some(contents),
            InstallStepView::LookStaging { contents: given } => content_at(files, self.destination)
                == before && given == contents,
            InstallStepView::Create { contents: given } => content_at(files, self.destination)
                == before && given == contents,
            InstallStepView::Write { contents: given } => content_at(files, self.destination)
                == before && given == contents,
            InstallStepView::LookStaged => content_at(files, self.destination) == before
                && content_at(files, self.staging) == Some(contents),
            InstallStepView::LookDestination => content_at(files, self.destination) == before
                && content_at(files, self.staging) == Some(contents),
            InstallStepView::Install => content_at(files, self.destination) == before
                && content_at(files, self.staging) == Some(contents),
            InstallStepView::Sync => content_at(files, self.destination) == Some(contents),
            InstallStepView::Abandon { .. } => complete(
                content_at(files, self.destination),
                before,
                contents,
            ),
        }
    }
}

/// The contents of the file at `path`, if there is one.
pub open spec fn content_at(files: Map<Seq<char>, Seq<u8>>, path: Seq<char>) -> Option<Seq<u8>> {
    if files.contains_key(path) {
        Some(files[path])
    } else {
        None
    }
}

/// Whether a reader sees a complete version: the one before or the new one.
pub open spec fn complete(
    seen: Option<Seq<u8>>,
    before: Option<Seq<u8>>,
    contents: Seq<u8>,
) -> bool {
    seen == before || seen == Some(contents)
}

proof fn lemma_install_step(
    run: InstallationView,
    step: InstallStepView,
    files: Map<Seq<char>, Seq<u8>>,
    event: Event,
    before: Option<Seq<u8>>,
    contents: Seq<u8>,
)
    requires
        run.staging != run.destination,
        run.holds_at(step, files, before, contents),
        performed(files, run.work(step), event.report, event.after),
    ensures
        complete(content_at(event.after, run.destination), before, contents),
        match run.advanced(step, event.report) {
            InstallProgressView::Continue(next) => run.holds_at(
                next,
                event.after,
                before,
                contents,
            ),
            InstallProgressView::End(Ok(InstalledView::Staged { path })) => content_at(
                event.after,
                path,
            ) == Some(contents),
            InstallProgressView::End(Ok(_)) => content_at(event.after, run.destination) == Some(
                contents,
            ),
            InstallProgressView::End(Err(_)) => true,
        },
{
}

/// Readers of a runtime config see complete versions only: whatever the disk
/// does, and after every operation, the destination holds what it held before or
/// all of the new contents.
pub proof fn readers_see_complete_versions(
    run: InstallationView,
    step: InstallStepView,
    files: Map<Seq<char>, Seq<u8>>,
    events: Seq<Event>,
    result: Result<InstalledView, ErrorView>,
    contents: Seq<u8>,
    before: Option<Seq<u8>>,
)
    requires
        run.staging != run.destination,
        run.holds_at(step, files, before, contents),
        run.ends(step, files, events, result),
    ensures
        forall|i: int|
            0 <= i < events.len() ==> complete(
                content_at(#[trigger] events[i].after, run.destination),
                before,
                contents,
            ),
    decreases events.len(),
{
    lemma_install_step(run, step, files, events[0], before, contents);
    if let InstallProgressView::Continue(next) = run.advanced(step, events[0].report) {
        let rest = events.skip(1);
        readers_see_complete_versions(run, next, events[0].after, rest, result, contents, before);
        assert forall|i: int| 0 <= i < events.len() implies complete(
            content_at(#[trigger] events[i].after, run.destination),
            before,
            contents,
        ) by {
            if i > 0 {
                assert(events[i] == rest[i - 1]);
            }
        }
    }
}

/// An installation that succeeds has put the contents where they belong.
pub proof fn success_installs_the_contents(
    run: InstallationView,
    step: InstallStepView,
    files: Map<Seq<char>, Seq<u8>>,
    events: Seq<Event>,
    result: Result<InstalledView, ErrorView>,
    contents: Seq<u8>,
)
    requires
        run.staging != run.destination,
        run.holds_at(step, files, content_at(files, run.destination), contents),
        run.ends(step, files, events, result),
        result is Ok,
    ensures
        match result {
            Ok(InstalledView::Staged { path }) => content_at(events.last().after, path) == Some(
                contents,
            ),
            _ => content_at(events.last().after, run.destination) == Some(contents),
        },
{
    lemma_success(
        run,
        step,
        files,
        events,
        result,
        content_at(files, run.destination),
        contents,
    );
}

proof fn lemma_success(
    run: InstallationView,
    step: InstallStepView,
    files: Map<Seq<char>, Seq<u8>>,
    events: Seq<Event>,
    result: Result<InstalledView, ErrorView>,
    before: Option<Seq<u8>>,
    contents: Seq<u8>,
)
    requires
        run.staging != run.destination,
        run.holds_at(step, files, before, contents),
        run.ends(step, files, events, result),
        result is Ok,
    ensures
        match result {
            Ok(InstalledView::Staged { path }) => content_at(events.last().after, path) == Some(
                contents,
            ),
            _ => content_at(events.last().after, run.destination) == Some(contents),
        },
    decreases events.len(),
{
    lemma_install_step(run, step, files, events[0], before, contents);
    if let InstallProgressView::Continue(next) = run.advanced(step, events[0].report) {
        let rest = events.skip(1);
        assert(run.ends(next, events[0].after, rest, result));
        lemma_success(run, next, events[0].after, rest, result, before, contents);
        assert(rest.last() == events.last());
    }
}

proof fn lemma_goal_kept(
    run: InstallationView,
    step: InstallStepView,
    files: Map<Seq<char>, Seq<u8>>,
    events: Seq<Event>,
    result: Result<InstalledView, ErrorView>,
)
    requires
        run.ends(step, files, events, result),
        result is Ok,
        run.goal != InstallGoal::Stage,
    ensures
        match result {
            Ok(InstalledView::BackedUp { path, epoch }) => run.goal == InstallGoal::Backup && path
                == run.destination && epoch == run.epoch,
            Ok(InstalledView::Replaced { path, .. }) => run.goal == InstallGoal::CommitReplace
                && path == run.destination,
            Ok(InstalledView::New { path }) => run.goal == InstallGoal::CommitNew && path
                == run.destination,
            _ => false,
        },
    decreases events.len(),
{
    if let InstallProgressView::Continue(next) = run.advanced(step, events[0].report) {
        lemma_goal_kept(run, next, events[0].after, events.skip(1), result);
    }
}

/// An installation touches no other file than the staged one and the
/// destination.
pub proof fn an_installation_leaves_other_files(
    run: InstallationView,
    step: InstallStepView,
    files: Map<Seq<char>, Seq<u8>>,
    events: Seq<Event>,
    result: Result<InstalledView, ErrorView>,
    other: Seq<char>,
)
    requires
        other != run.staging,
        other != run.destination,
        run.ends(step, files, events, result),
    ensures
        content_at(events.last().after, other) == content_at(files, other),
    decreases events.len(),
{
    if let InstallProgressView::Continue(next) = run.advanced(step, events[0].report) {
        let rest = events.skip(1);
        assert(run.ends(next, events[0].after, rest, result));
        an_installation_leaves_other_files(run, next, events[0].after, rest, result, other);
        assert(rest.last() == events.last());
    }
}

proof fn lemma_settled_replacement(
    run: InstallationView,
    files: Map<Seq<char>, Seq<u8>>,
    events: Seq<Event>,
    result: Result<InstalledView, ErrorView>,
)
    requires
        run.goal == InstallGoal::CommitReplace,
        run.ends(InstallStepView::Sync, files, events, result),
    ensures
        result is Ok,
    decreases events.len(),
{
    if let InstallProgressView::Continue(next) = run.advanced(
        InstallStepView::Sync,
        events[0].report,
    ) {
        lemma_settled_replacement(run, events[0].after, events.skip(1), result);
    }
}

/// A replacement that fails leaves the runtime config as it was.
pub proof fn a_failed_replacement_keeps_the_config(
    run: InstallationView,
    step: InstallStepView,
    files: Map<Seq<char>, Seq<u8>>,
    events: Seq<Event>,
    result: Result<InstalledView, ErrorView>,
)
    requires
        run.goal == InstallGoal::CommitReplace,
        run.staging != run.destination,
        run.ends(step, files, events, result),
        result is Err,
    ensures
        content_at(events.last().after, run.destination) == content_at(files, run.destination),
    decreases events.len(),
{
    if let InstallProgressView::Continue(next) = run.advanced(step, events[0].report) {
        let rest = events.skip(1);
        assert(run.ends(next, events[0].after, rest, result));
        if next is Sync {
            lemma_settled_replacement(run, events[0].after, rest, result);
        }
        a_failed_replacement_keeps_the_config(run, next, events[0].after, rest, result);
        assert(rest.last() == events.last());
    }
}

impl InstallationView {
    /// Whether the disk lets a run that fails take back its staged file: to
    /// create it fails without a trace, and to remove it fails only if it is not
    /// there.
    pub open spec fn takes_back(
        self,
        step: InstallStepView,
        files: Map<Seq<char>, Seq<u8>>,
        events: Seq<Event>,
    ) -> bool
        decreases events.len(),
    {
        events.len() > 0 ==> {
            &&& step is Create && events[0].report is Failed ==> events[0].after == files
            &&& step is Abandon && events[0].report is Failed ==> !files.contains_key(self.staging)
            &&& match self.advanced(step, events[0].report) {
                InstallProgressView::Continue(next) => self.takes_back(
                    next,
                    events[0].after,
                    events.skip(1),
                ),
                InstallProgressView::End(_) => true,
            }
        }
    }

    /// Whether no file is staged at a step before the staging file is written
    /// and after it went to its destination.
    pub open spec fn unstaged_at(
        self,
        step: InstallStepView,
        files: Map<Seq<char>, Seq<u8>>,
    ) -> bool {
        step is Create || step is Sync ==> !files.contains_key(self.staging)
    }
}

/// An installation leaves no staged file of its own behind. One that puts its
/// file in place has none any more. One that fails before it staged anything
/// leaves what is there, and one that fails later takes its staged file back,
/// where the disk lets it.
pub proof fn an_installation_leaves_no_staged_file(
    run: InstallationView,
    step: InstallStepView,
    files: Map<Seq<char>, Seq<u8>>,
    events: Seq<Event>,
    result: Result<InstalledView, ErrorView>,
)
    requires
        run.goal != InstallGoal::Stage || result is Err,
        run.staging != run.destination,
        run.unstaged_at(step, files),
        run.ends(step, files, events, result),
    ensures
        result is Ok ==> !events.last().after.contains_key(run.staging),
        result is Err && run.takes_back(step, files, events) ==> match step {
            InstallStepView::LookSource { .. } => content_at(events.last().after, run.staging)
                == content_at(files, run.staging),
            InstallStepView::ReadSource { .. } => content_at(events.last().after, run.staging)
                == content_at(files, run.staging),
            InstallStepView::LookStaging { .. } => content_at(events.last().after, run.staging)
                == content_at(files, run.staging),
            _ => !events.last().after.contains_key(run.staging),
        },
    decreases events.len(),
{
    if let InstallProgressView::Continue(next) = run.advanced(step, events[0].report) {
        let rest = events.skip(1);
        assert(run.ends(next, events[0].after, rest, result));
        assert(run.unstaged_at(next, events[0].after));
        an_installation_leaves_no_staged_file(run, next, events[0].after, rest, result);
        assert(rest.last() == events.last());
    }
}

/// Whether the disk reports no fault: no operation fails, and nothing but
/// ordinary files is found.
pub open spec fn faultless(events: Seq<Event>) -> bool {
    forall|i: int|
        0 <= i < events.len() ==> match (#[trigger] events[i]).report {
            FileReport::Failed { .. } => false,
            FileReport::LookedUp { lookup: Lookup::Found(metadata), .. } => metadata.regular(),
            FileReport::LookedUp { lookup: Lookup::Failed(_), .. } => false,
            _ => true,
        }
}

impl InstallationView {
    /// Whether the files are those that the rest of the installation needs: the
    /// source and what was staged are there, the place for staging is free, and
    /// so is the destination unless a file is to be replaced.
    pub open spec fn ready_at(
        self,
        step: InstallStepView,
        files: Map<Seq<char>, Seq<u8>>,
    ) -> bool {
        let free = !files.contains_key(self.staging);
        &&& self.goal == InstallGoal::CommitNew || self.goal == InstallGoal::CommitReplace
            ==> self.staged_here
        &&& self.goal != InstallGoal::Stage && !(step is Sync) ==> files.contains_key(
            self.destination,
        ) == (self.goal == InstallGoal::CommitReplace)
        &&& match step {
            InstallStepView::LookSource { source } => free && files.contains_key(source),
            InstallStepView::ReadSource { source } => free && files.contains_key(source),
            InstallStepView::LookStaging { .. } => free,
            InstallStepView::Create { .. } => free,
            InstallStepView::Write { .. } => true,
            InstallStepView::Sync => true,
            InstallStepView::Abandon { .. } => false,
            _ => !free,
        }
    }

    /// What an installation ends in if nothing fails.
    pub open spec fn success(self) -> Result<InstalledView, ErrorView> {
        if self.goal == InstallGoal::Stage {
            Ok(InstalledView::Staged { path: self.staging })
        } else {
            self.settled(None)
        }
    }
}

/// An installation succeeds where the files that it needs are there and no
/// operation fails.
pub proof fn an_installation_succeeds_without_a_fault(
    run: InstallationView,
    step: InstallStepView,
    files: Map<Seq<char>, Seq<u8>>,
    events: Seq<Event>,
    result: Result<InstalledView, ErrorView>,
)
    requires
        run.staging != run.destination,
        run.goal == InstallGoal::Stage ==> !(step is LookStaged || step is LookDestination
            || step is Install || step is Sync),
        run.ready_at(step, files),
        run.ends(step, files, events, result),
        faultless(events),
    ensures
        result == run.success(),
    decreases events.len(),
{
    let report = events[0].report;
    match run.advanced(step, report) {
        InstallProgressView::Continue(next) => {
            let rest = events.skip(1);
            assert(run.ends(next, events[0].after, rest, result));
            assert(run.ready_at(next, events[0].after));
            assert forall|i: int| 0 <= i < rest.len() implies match (#[trigger] rest[i]).report {
                FileReport::Failed { .. } => false,
                FileReport::LookedUp { lookup: Lookup::Found(metadata), .. } => metadata.regular(),
                FileReport::LookedUp { lookup: Lookup::Failed(_), .. } => false,
                _ => true,
            } by {
                assert(rest[i] == events[i + 1]);
            }
            an_installation_succeeds_without_a_fault(run, next, events[0].after, rest, result);
        },
        InstallProgressView::End(_) => {},
    }
}

/// What a name of text, digits and more holds.
proof fn lemma_holds_no(parts: Seq<Seq<char>>, whole: Seq<char>, c: char)
    requires
        !text::is_digit(c),
        parts.len() == 4,
        whole == parts[0] + parts[1] + parts[2] + parts[3],
        forall|k: int, i: int|
            0 <= k < 4 && 0 <= i < parts[k].len() ==> #[trigger] parts[k][i] != c,
    ensures
        forall|i: int| 0 <= i < whole.len() ==> #[trigger] whole[i] != c,
{
    let first = parts[0].len() as int;
    let second = first + parts[1].len();
    let third = second + parts[2].len();
    assert forall|i: int| 0 <= i < whole.len() implies #[trigger] whole[i] != c by {
        if i < first {
            assert(whole[i] == parts[0][i]);
        } else if i < second {
            assert(whole[i] == parts[1][i - first]);
        } else if i < third {
            assert(whole[i] == parts[2][i - second]);
        } else {
            assert(whole[i] == parts[3][i - third]);
        }
    }
}

proof fn lemma_digits_hold_no(n: nat, c: char)
    requires
        !text::is_digit(c),
    ensures
        forall|i: int| 0 <= i < text::decimal(n).len() ==> #[trigger] text::decimal(n)[i] != c,
{
    text::lemma_decimal_value(n);
    assert forall|i: int| 0 <= i < text::decimal(n).len() implies #[trigger] text::decimal(n)[i]
        != c by {
        assert(text::is_digit(text::decimal(n)[i]));
    }
}

/// Two texts of which one ends in the other have the same last character.
proof fn lemma_ends_differ(a: Seq<char>, b: Seq<char>)
    requires
        a.len() > 0,
        b.len() > 0,
        a.last() != b.last(),
    ensures
        !path::ends_in(a, b),
        !path::ends_in(b, a),
{
    if path::ends_in(a, b) {
        let at = a.len() - b.len();
        assert(a.subrange(at, at + b.len()).last() == a.last());
    }
    if path::ends_in(b, a) {
        let at = b.len() - a.len();
        assert(b.subrange(at, at + a.len()).last() == b.last());
    }
}

/// A text does not end in one that holds a character which it does not.
proof fn lemma_does_not_end(a: Seq<char>, b: Seq<char>, at: int)
    requires
        0 <= at < b.len(),
        forall|i: int| 0 <= i < a.len() ==> #[trigger] a[i] != b[at],
    ensures
        !path::ends_in(a, b),
{
    if path::ends_in(a, b) {
        let start = a.len() - b.len();
        assert(a.subrange(start, start + b.len())[at] == a[start + at]);
    }
}

/// Of the names of a staged config, a runtime config and a backup, none is the
/// end of another.
proof fn lemma_names_differ(epoch: u64, generation: u64, process: u32, counter: u64)
    ensures
        ({
            let staged = runtime_store::staged_name(epoch, process, counter);
            let config = runtime_store::config_name(epoch);
            let backup = runtime_store::backup_name(epoch, generation);
            &&& !path::ends_in(staged, config)
            &&& !path::ends_in(config, staged)
            &&& !path::ends_in(staged, backup)
            &&& !path::ends_in(backup, staged)
            &&& !path::ends_in(backup, config)
            &&& !path::ends_in(config, backup)
        }),
{
    let staged = runtime_store::staged_name(epoch, process, counter);
    let config = runtime_store::config_name(epoch);
    let backup = runtime_store::backup_name(epoch, generation);
    let number = text::decimal(epoch as nat);
    let maker = text::decimal(process as nat);
    let count = text::decimal(counter as nat);
    let tail = text::decimal(generation as nat);
    reveal_strlit("config-");
    reveal_strlit(".config-");
    reveal_strlit(".yaml");
    reveal_strlit(".yaml.tmp-");
    reveal_strlit(".yaml.backup-");
    reveal_strlit("-");
    text::lemma_decimal_value(counter as nat);
    text::lemma_decimal_value(generation as nat);
    assert(text::is_digit(count[count.len() - 1]));
    assert(text::is_digit(tail[tail.len() - 1]));
    assert(staged.last() == count.last());
    assert(backup.last() == tail.last());
    assert(config.last() == 'l');
    lemma_ends_differ(staged, config);
    lemma_ends_differ(backup, config);
    // Only a backup has a `k`, and only a staged config a `t`.
    lemma_digits_hold_no(epoch as nat, 'k');
    lemma_digits_hold_no(process as nat, 'k');
    lemma_digits_hold_no(counter as nat, 'k');
    lemma_digits_hold_no(epoch as nat, 't');
    lemma_digits_hold_no(generation as nat, 't');
    let rest = ".yaml.tmp-"@ + maker + "-"@;
    assert forall|i: int| 0 <= i < rest.len() implies #[trigger] rest[i] != 'k' by {
        let lead = ".yaml.tmp-"@.len() as int;
        if i < lead {
            assert(rest[i] == ".yaml.tmp-"@[i]);
        } else if i < lead + maker.len() {
            assert(rest[i] == maker[i - lead]);
        } else {
            assert(rest[i] == '-');
        }
    }
    assert(staged =~= ".config-"@ + number + rest + count);
    lemma_holds_no(seq![".config-"@, number, rest, count], staged, 'k');
    lemma_holds_no(seq!["config-"@, number, ".yaml.backup-"@, tail], backup, 't');
    let lead = ("config-"@.len() + number.len()) as int;
    assert(backup[lead + 9] == 'k');
    assert(staged[lead + 7] == 't');
    lemma_does_not_end(staged, backup, lead + 9);
    lemma_does_not_end(backup, staged, lead + 7);
}

proof fn lemma_warning(
    run: InstallationView,
    step: InstallStepView,
    files: Map<Seq<char>, Seq<u8>>,
    events: Seq<Event>,
    result: Result<InstalledView, ErrorView>,
)
    requires
        run.goal == InstallGoal::CommitReplace,
        run.ends(step, files, events, result),
    ensures
        result matches Ok(InstalledView::Replaced { warning, .. }) ==> (warning is Some
            <==> events.last().report is Failed),
    decreases events.len(),
{
    if let InstallProgressView::Continue(next) = run.advanced(step, events[0].report) {
        let rest = events.skip(1);
        assert(run.ends(next, events[0].after, rest, result));
        lemma_warning(run, next, events[0].after, rest, result);
        assert(rest.last() == events.last());
    }
}

/// To replace the runtime config of an epoch is atomic: after every operation a
/// reader finds the old contents or the new ones, complete. One that succeeds
/// has put the new contents in place and left no staged file; that the directory
/// could not be synchronised is a warning then. One that fails leaves the old
/// contents, and what was at the place for staging, where the disk lets it take
/// its staged file back. It succeeds where the place for staging is free and no
/// operation fails.
pub proof fn a_replacement_is_atomic(
    store: RuntimeConfigStore,
    epoch: u64,
    process: u32,
    counter: u64,
    run: InstallationView,
    contents: Seq<u8>,
    files: Map<Seq<char>, Seq<u8>>,
    events: Seq<Event>,
    result: Result<InstalledView, ErrorView>,
)
    requires
        store.replaces(run, epoch, process, counter),
        files.contains_key(run.destination),
        run.ends(InstallStepView::LookStaging { contents }, files, events, result),
    ensures
        forall|i: int|
            0 <= i < events.len() ==> content_at(#[trigger] events[i].after, run.destination)
                == Some(files[run.destination]) || content_at(events[i].after, run.destination)
                == Some(contents),
        match result {
            Ok(InstalledView::Replaced { path, warning }) => {
                &&& path == run.destination
                &&& content_at(events.last().after, run.destination) == Some(contents)
                &&& !events.last().after.contains_key(run.staging)
                &&& warning is Some <==> events.last().report is Failed
            },
            Ok(_) => false,
            Err(_) => {
                &&& content_at(events.last().after, run.destination) == Some(
                    files[run.destination],
                )
                &&& run.takes_back(InstallStepView::LookStaging { contents }, files, events)
                    ==> content_at(events.last().after, run.staging) == content_at(
                    files,
                    run.staging,
                )
            },
        },
        run.staged_here && !files.contains_key(run.staging) && faultless(events) ==> result == Ok::<
            InstalledView,
            ErrorView,
        >(InstalledView::Replaced { path: run.destination, warning: None }),
{
    let step = InstallStepView::LookStaging { contents };
    let before = content_at(files, run.destination);
    lemma_names_differ(epoch, 0, process, counter);
    path::different_names_are_different_paths(
        store.dir@,
        runtime_store::staged_name(epoch, process, counter),
        runtime_store::config_name(epoch),
        run.staging,
        run.destination,
    );
    readers_see_complete_versions(run, step, files, events, result, contents, before);
    an_installation_leaves_no_staged_file(run, step, files, events, result);
    if result is Ok {
        lemma_goal_kept(run, step, files, events, result);
        lemma_warning(run, step, files, events, result);
        success_installs_the_contents(run, step, files, events, result, contents);
    } else {
        a_failed_replacement_keeps_the_config(run, step, files, events, result);
    }
    if run.ready_at(step, files) && faultless(events) {
        an_installation_succeeds_without_a_fault(run, step, files, events, result);
    }
}

/// A replacement of the runtime config of an epoch, from a step to its end.
pub struct Replacement {
    pub run: InstallationView,
    pub process: u32,
    pub counter: u64,
    pub step: InstallStepView,
    pub events: Seq<Event>,
    pub result: Result<InstalledView, ErrorView>,
}

impl RuntimeConfigStore {
    /// Whether replacements of the runtime config of an epoch, one after the
    /// other, lead from `files` to `later`.
    pub open spec fn replaced_by(
        &self,
        epoch: u64,
        files: Map<Seq<char>, Seq<u8>>,
        replacements: Seq<Replacement>,
        later: Map<Seq<char>, Seq<u8>>,
    ) -> bool
        decreases replacements.len(),
    {
        if replacements.len() == 0 {
            later == files
        } else {
            let first = replacements[0];
            &&& self.replaces(first.run, epoch, first.process, first.counter)
            &&& first.run.ends(first.step, files, first.events, first.result)
            &&& self.replaced_by(epoch, first.events.last().after, replacements.skip(1), later)
        }
    }
}

/// However often the runtime config of an epoch is replaced, and whatever comes
/// of it, its backups stay as they are.
pub proof fn replacements_leave_backups(
    store: RuntimeConfigStore,
    epoch: u64,
    generation: u64,
    files: Map<Seq<char>, Seq<u8>>,
    replacements: Seq<Replacement>,
    later: Map<Seq<char>, Seq<u8>>,
    backup: Seq<char>,
)
    requires
        path::under(store.dir@, runtime_store::backup_name(epoch, generation), backup),
        store.replaced_by(epoch, files, replacements, later),
    ensures
        content_at(later, backup) == content_at(files, backup),
    decreases replacements.len(),
{
    if replacements.len() > 0 {
        let first = replacements[0];
        lemma_backup_is_aside(
            store,
            first.run,
            epoch,
            generation,
            first.process,
            first.counter,
            backup,
        );
        an_installation_leaves_other_files(
            first.run,
            first.step,
            files,
            first.events,
            first.result,
            backup,
        );
        replacements_leave_backups(
            store,
            epoch,
            generation,
            first.events.last().after,
            replacements.skip(1),
            later,
            backup,
        );
    }
}

/// The path of a backup is neither that of the runtime config nor that of a
/// staged one.
proof fn lemma_backup_is_aside(
    store: RuntimeConfigStore,
    run: InstallationView,
    epoch: u64,
    generation: u64,
    process: u32,
    counter: u64,
    backup: Seq<char>,
)
    requires
        path::under(store.dir@, runtime_store::backup_name(epoch, generation), backup),
        store.replaces(run, epoch, process, counter),
    ensures
        backup != run.staging,
        backup != run.destination,
        run.staging != run.destination,
{
    let name = runtime_store::backup_name(epoch, generation);
    let staged = runtime_store::staged_name(epoch, process, counter);
    let config = runtime_store::config_name(epoch);
    lemma_names_differ(epoch, generation, process, counter);
    path::different_names_are_different_paths(store.dir@, name, staged, backup, run.staging);
    path::different_names_are_different_paths(store.dir@, name, config, backup, run.destination);
    path::different_names_are_different_paths(
        store.dir@,
        staged,
        config,
        run.staging,
        run.destination,
    );
}

/// Restoring a backup gives back what the runtime config held when the backup
/// was made, whatever replaced it in between. The backup stays, and no staged
/// file is left. It succeeds where there is a runtime config to replace, the
/// place for staging is free and no operation fails; if it fails, the runtime
/// config stays as it is.
pub proof fn a_backup_restores_what_it_saved(
    store: RuntimeConfigStore,
    epoch: u64,
    generation: u64,
    first: (u32, u64),
    saving: InstallationView,
    step: InstallStepView,
    files: Map<Seq<char>, Seq<u8>>,
    saved: Seq<Event>,
    path: Seq<char>,
    replacements: Seq<Replacement>,
    second: (u32, u64),
    restoring: InstallationView,
    later: Map<Seq<char>, Seq<u8>>,
    restored: Seq<Event>,
    result: Result<InstalledView, ErrorView>,
)
    requires
        store.backs_up(saving, step, epoch, generation, first.0, first.1),
        files.contains_key(step->LookSource_source),
        saving.ends(step, files, saved, Ok(InstalledView::BackedUp { path, epoch })),
        store.replaced_by(epoch, saved.last().after, replacements, later),
        store.replaces(restoring, epoch, second.0, second.1),
        restoring.ends(InstallStepView::LookSource { source: path }, later, restored, result),
    ensures
        result is Ok ==> content_at(restored.last().after, restoring.destination) == Some(
            files[step->LookSource_source],
        ),
        result is Ok ==> !restored.last().after.contains_key(restoring.staging),
        result is Err ==> content_at(restored.last().after, restoring.destination) == content_at(
            later,
            restoring.destination,
        ),
        content_at(restored.last().after, path) == Some(files[step->LookSource_source]),
        restoring.staged_here && later.contains_key(restoring.destination) && !later.contains_key(
            restoring.staging,
        ) && faultless(restored) ==> result == Ok::<InstalledView, ErrorView>(
            InstalledView::Replaced { path: restoring.destination, warning: None },
        ),
{
    let contents = files[step->LookSource_source];
    let done = Ok(InstalledView::BackedUp { path, epoch });
    lemma_names_differ(epoch, generation, first.0, first.1);
    path::different_names_are_different_paths(
        store.dir@,
        runtime_store::staged_name(epoch, first.0, first.1),
        runtime_store::backup_name(epoch, generation),
        saving.staging,
        saving.destination,
    );
    success_installs_the_contents(saving, step, files, saved, done, contents);
    lemma_goal_kept(saving, step, files, saved, done);
    let backup = saving.destination;
    replacements_leave_backups(
        store,
        epoch,
        generation,
        saved.last().after,
        replacements,
        later,
        backup,
    );
    lemma_backup_is_aside(store, restoring, epoch, generation, second.0, second.1, backup);
    let source = InstallStepView::LookSource { source: path };
    an_installation_leaves_other_files(restoring, source, later, restored, result, backup);
    an_installation_leaves_no_staged_file(restoring, source, later, restored, result);
    if result is Ok {
        lemma_goal_kept(restoring, source, later, restored, result);
        success_installs_the_contents(restoring, source, later, restored, result, contents);
    } else {
        a_failed_replacement_keeps_the_config(restoring, source, later, restored, result);
    }
    if restoring.ready_at(source, later) && faultless(restored) {
        an_installation_succeeds_without_a_fault(restoring, source, later, restored, result);
    }
}

/// The first runtime config of an epoch never takes the place of another file:
/// a file that is there stays as it is.
pub proof fn a_new_config_overwrites_nothing(
    run: InstallationView,
    step: InstallStepView,
    files: Map<Seq<char>, Seq<u8>>,
    events: Seq<Event>,
    result: Result<InstalledView, ErrorView>,
)
    requires
        run.goal != InstallGoal::CommitReplace,
        run.staging != run.destination,
        files.contains_key(run.destination),
        run.ends(step, files, events, result),
    ensures
        content_at(events.last().after, run.destination) == Some(files[run.destination]),
    decreases events.len(),
{
    if let InstallProgressView::Continue(next) = run.advanced(step, events[0].report) {
        let rest = events.skip(1);
        assert(run.ends(next, events[0].after, rest, result));
        a_new_config_overwrites_nothing(run, next, events[0].after, rest, result);
        assert(rest.last() == events.last());
    }
}

} // verus!
