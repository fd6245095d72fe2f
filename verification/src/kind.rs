//! Core kinds, launch profiles, and config checking.

use crate::error::{Error, ErrorView};
use crate::path;
use crate::platform::Platform;
use crate::spec::InstanceSpec;
use crate::text;
use vstd::prelude::*;
use vstd::string::*;

verus! {

/// The Clash-family cores that can be managed.
#[derive(Debug, Clone, Copy, PartialEq, Eq, Structural)]
pub enum CoreKind {
    Mihomo,
    ClashRust,
    ClashPremium,
    Meow,
}

impl CoreKind {
    /// The name of the kind.
    pub open spec fn name(self) -> Seq<char> {
        match self {
            CoreKind::Mihomo => "mihomo"@,
            CoreKind::ClashRust => "clash-rs"@,
            CoreKind::ClashPremium => "clash"@,
            CoreKind::Meow => "meow"@,
        }
    }

    /// The name of the kind, as messages show it.
    pub fn as_str(&self) -> (res: &'static str)
        ensures
            res@ == self.name(),
    {
        match self {
            CoreKind::Mihomo => "mihomo",
            CoreKind::ClashRust => "clash-rs",
            CoreKind::ClashPremium => "clash",
            CoreKind::Meow => "meow",
        }
    }
}

/// The environment variable Mihomo consults for permitted file-system roots.
pub const MIHOMO_SAFE_PATHS_ENV_NAME: &'static str = "SAFE_PATHS";

/// The launch arguments of a kind; `Meow` has no launch profile yet.
pub open spec fn launch_args(kind: CoreKind, working_dir: Seq<char>, config_path: Seq<char>) -> Option<
    Seq<Seq<char>>,
> {
    match kind {
        CoreKind::Mihomo => Some(seq!["-m"@, "-d"@, working_dir, "-f"@, config_path]),
        CoreKind::ClashRust => Some(seq!["-d"@, working_dir, "-c"@, config_path]),
        CoreKind::ClashPremium => Some(seq!["-d"@, working_dir, "-f"@, config_path]),
        CoreKind::Meow => None,
    }
}

/// The launch arguments of a kind; `Meow` has no launch profile yet.
pub fn run_args(kind: CoreKind, working_dir: &str, config_path: &str) -> (res: Result<
    Vec<String>,
    Error,
>)
    ensures
        match res {
            Ok(args) => launch_args(kind, working_dir@, config_path@) == Some(text::texts(args@)),
            Err(error) => launch_args(kind, working_dir@, config_path@) is None && error@
                == ErrorView::UnsupportedCore(kind),
        },
{
    let mut args: Vec<String> = Vec::new();
    match kind {
        CoreKind::Mihomo => {
            args.push("-m".to_owned());
            args.push("-d".to_owned());
            args.push(working_dir.to_owned());
            args.push("-f".to_owned());
            args.push(config_path.to_owned());
        },
        CoreKind::ClashRust => {
            args.push("-d".to_owned());
            args.push(working_dir.to_owned());
            args.push("-c".to_owned());
            args.push(config_path.to_owned());
        },
        CoreKind::ClashPremium => {
            args.push("-d".to_owned());
            args.push(working_dir.to_owned());
            args.push("-f".to_owned());
            args.push(config_path.to_owned());
        },
        CoreKind::Meow => {
            return Err(Error::UnsupportedCore(kind));
        },
    }
    assert(text::texts(args@) =~= launch_args(kind, working_dir@, config_path@)->0);
    Ok(args)
}

/// The launch arguments of a kind that has a launch profile.
pub(crate) fn launch_command_args(kind: CoreKind, working_dir: &str, config_path: &str) -> (res:
    Vec<String>)
    requires
        kind != CoreKind::Meow,
    ensures
        launch_args(kind, working_dir@, config_path@) == Some(text::texts(res@)),
{
    match run_args(kind, working_dir, config_path) {
        Ok(args) => args,
        Err(_) => Vec::new(),
    }
}

/// The arguments of a one-shot config validation run, the same for all kinds.
pub fn check_args(working_dir: &str, config_path: &str) -> (res: Vec<String>)
    ensures
        text::texts(res@) == seq!["-t"@, "-d"@, working_dir@, "-f"@, config_path@],
{
    let mut args: Vec<String> = Vec::new();
    args.push("-t".to_owned());
    args.push("-d".to_owned());
    args.push(working_dir.to_owned());
    args.push("-f".to_owned());
    args.push(config_path.to_owned());
    assert(text::texts(args@) =~= seq!["-t"@, "-d"@, working_dir@, "-f"@, config_path@]);
    args
}

/// What separates the directories of Mihomo's list, on `platform`.
pub open spec fn safe_paths_separator(platform: Platform) -> Seq<char> {
    match platform {
        Platform::Windows => ";"@,
        Platform::Unix => ":"@,
    }
}

/// Joins the directories Mihomo may touch into its `SAFE_PATHS` format.
pub fn mihomo_safe_paths(platform: Platform, working_dir: &str, config_dir: &str) -> (res: String)
    ensures
        res@ == working_dir@ + safe_paths_separator(platform) + config_dir@,
{
    let separator: &str = match platform {
        Platform::Windows => ";",
        Platform::Unix => ":",
    };
    text::concat3(working_dir, separator, config_dir)
}

/// Where the quoted message of a structured log line begins: one character
/// behind the first `level=error msg=`, or else behind the first `msg=`.
pub open spec fn message_start(log: Seq<char>) -> int {
    match text::find(log, "level=error msg="@) {
        Some(at) => at + 17,
        None => text::find(log, "msg="@)->0 + 5,
    }
}

/// Whether a log line is a structured one, with a quote behind its message key.
pub open spec fn structured(log: Seq<char>) -> bool {
    text::find(log, "time="@) is Some && text::find(log, "msg="@) is Some && text::rfind(log, '"')
        is Some && text::rfind(log, '"')->0 > text::find(log, "msg="@)->0
}

/// Whether the message of a structured log line can be cut out: it does not
/// begin behind the last quote, and the character before it is a single byte.
pub open spec fn cuttable(log: Seq<char>) -> bool {
    structured(log) ==> message_start(log) <= text::rfind(log, '"')->0 && (log[message_start(log)
        - 1] as u32) < 128
}

/// The human-readable message of a Mihomo log line: the quoted message of a
/// structured line, else what stands between `error=` and `path=`, else the
/// line itself.
pub open spec fn check_message(log: Seq<char>) -> Seq<char> {
    let end = match text::find(log, "path="@) {
        Some(at) => at,
        None => log.len() as int,
    };
    if structured(log) {
        log.subrange(message_start(log), text::rfind(log, '"')->0)
    } else {
        match text::find(log, "error="@) {
            Some(at) => if end >= at + 6 {
                text::trimmed_end(log.subrange(at + 6, end))
            } else {
                log
            },
            None => log,
        }
    }
}

proof fn lemma_positions(log: Seq<char>)
    ensures
        text::find(log, "level=error msg="@) matches Some(at) ==> 0 <= at <= log.len(),
        text::find(log, "msg="@) matches Some(at) ==> 0 <= at <= log.len(),
        text::find(log, "error="@) matches Some(at) ==> 0 <= at && at + 6 <= log.len(),
        text::find(log, "path="@) matches Some(at) ==> 0 <= at <= log.len(),
        text::rfind(log, '"') matches Some(at) ==> 0 <= at < log.len(),
{
    reveal_strlit("error=");
    text::lemma_find_from(log, "level=error msg="@, 0);
    text::lemma_find_from(log, "msg="@, 0);
    text::lemma_find_from(log, "error="@, 0);
    text::lemma_find_from(log, "path="@, 0);
    text::lemma_rfind_before(log, '"', log.len() as int);
}

/// Where the message of a structured line begins and ends; none for another
/// line.
fn message_bounds(log: &str) -> (res: Option<(usize, usize)>)
    requires
        log@.len() + 17 <= usize::MAX,
    ensures
        match res {
            Some(bounds) => structured(log@) && bounds.0 == message_start(log@) && bounds.1
                == text::rfind(log@, '"')->0,
            None => !structured(log@),
        },
{
    proof {
        lemma_positions(log@);
    }
    if text::position(log, "time=").is_none() {
        return None;
    }
    let message: usize = match text::position(log, "msg=") {
        Some(at) => at,
        None => {
            return None;
        },
    };
    let quote: usize = match text::last_position(log, '"') {
        Some(at) => at,
        None => {
            return None;
        },
    };
    if quote <= message {
        return None;
    }
    let start: usize = match text::position(log, "level=error msg=") {
        Some(at) => at + 17,
        None => message + 5,
    };
    Some((start, quote))
}

/// Whether [`parse_check_output`] can take `log`.
pub fn is_cuttable(log: &str) -> (res: bool)
    requires
        log@.len() + 17 <= usize::MAX,
    ensures
        res == cuttable(log@),
{
    proof {
        lemma_positions(log@);
    }
    match message_bounds(log) {
        Some(bounds) => bounds.0 <= bounds.1 && (log.get_char(bounds.0 - 1) as u32) < 128,
        None => true,
    }
}

/// Extracts the human-readable message from a Mihomo error log line.
pub fn parse_check_output(log: String) -> (res: String)
    requires
        log@.len() + 17 <= usize::MAX,
        cuttable(log@),
    ensures
        res@ == check_message(log@),
{
    proof {
        lemma_positions(log@);
    }
    if let Some(bounds) = message_bounds(log.as_str()) {
        return text::slice(log.as_str(), bounds.0, bounds.1);
    }
    let end: usize = match text::position(log.as_str(), "path=") {
        Some(at) => at,
        None => text::chars_of(log.as_str()).len(),
    };
    if let Some(at) = text::position(log.as_str(), "error=") {
        let start: usize = at + 6;
        if end >= start {
            let detail: String = text::slice(log.as_str(), start, end);
            return text::trim_end(detail.as_str());
        }
    }
    log
}

/// Whether a line carries an error of a structured log.
pub open spec fn error_line(line: Seq<char>) -> bool {
    text::find(line, "level=error"@) is Some
}

/// The last error line among `lines`.
pub open spec fn last_error_line(lines: Seq<Seq<char>>) -> Option<Seq<char>>
    decreases lines.len(),
{
    if lines.len() == 0 {
        None
    } else if error_line(lines.last()) {
        Some(lines.last())
    } else {
        last_error_line(lines.drop_last())
    }
}

/// The error line that a summary is made of, if any.
pub open spec fn summary_line(kind: CoreKind, stderr_tail: Seq<char>) -> Option<Seq<char>> {
    if kind == CoreKind::Mihomo {
        last_error_line(text::lines(stderr_tail))
    } else {
        None
    }
}

/// Whether [`error_summary`] can take `stderr_tail`.
pub open spec fn summarisable(kind: CoreKind, stderr_tail: Seq<char>) -> bool {
    summary_line(kind, stderr_tail) matches Some(line) ==> cuttable(line) && line.len() + 17
        <= usize::MAX
}

/// A stderr tail condensed into a message.
pub open spec fn condensed(kind: CoreKind, stderr_tail: Seq<char>) -> Seq<char> {
    match summary_line(kind, stderr_tail) {
        Some(line) => check_message(line),
        None => stderr_tail,
    }
}

fn find_summary_line(kind: CoreKind, stderr_tail: &str) -> (res: Option<String>)
    ensures
        match res {
            Some(line) => summary_line(kind, stderr_tail@) == Some(line@),
            None => summary_line(kind, stderr_tail@) is None,
        },
{
    if kind != CoreKind::Mihomo {
        return None;
    }
    let lines: Vec<String> = text::line_list(stderr_tail);
    let ghost all = text::lines(stderr_tail@);
    let mut end: usize = lines.len();
    assert(all.take(end as int) =~= all);
    while end > 0
        invariant
            end <= lines.len(),
            text::texts(lines@) == all,
            last_error_line(all) == last_error_line(all.take(end as int)),
            all == text::lines(stderr_tail@),
            kind == CoreKind::Mihomo,
        decreases end,
    {
        assert(all[end - 1] == lines@[end - 1]@);
        assert(all.take(end as int).last() == all[end - 1]);
        assert(all.take(end as int).drop_last() =~= all.take(end - 1));
        if text::contains_text(lines[end - 1].as_str(), "level=error") {
            return Some(lines[end - 1].clone());
        }
        end = end - 1;
    }
    None
}

/// Whether [`error_summary`] can take `stderr_tail`.
pub fn is_summarisable(kind: CoreKind, stderr_tail: &str) -> (res: bool)
    ensures
        res == summarisable(kind, stderr_tail@),
{
    match find_summary_line(kind, stderr_tail) {
        Some(line) => {
            let length: usize = text::chars_of(line.as_str()).len();
            length <= usize::MAX - 17 && is_cuttable(line.as_str())
        },
        None => true,
    }
}

/// Condenses a stderr tail into an error message. Mihomo logs are structured,
/// so the last `level=error` line carries the actual cause.
pub fn error_summary(kind: CoreKind, stderr_tail: &str) -> (res: String)
    requires
        summarisable(kind, stderr_tail@),
    ensures
        res@ == condensed(kind, stderr_tail@),
{
    match find_summary_line(kind, stderr_tail) {
        Some(line) => parse_check_output(line),
        None => stderr_tail.to_owned(),
    }
}

/// A config validation run: the program, its arguments, and the value of
/// [`MIHOMO_SAFE_PATHS_ENV_NAME`] in its environment.
#[derive(Debug, PartialEq, Eq)]
pub struct CheckCommand {
    pub program: String,
    pub args: Vec<String>,
    pub safe_paths: String,
}

/// The validation run of a spec whose config stands in `config_dir`; a config
/// path without a directory is no config, and `Meow` cannot be checked.
pub fn check_command_in(
    spec: &InstanceSpec,
    platform: Platform,
    config_dir: Option<String>,
) -> (res: Result<CheckCommand, Error>)
    ensures
        match res {
            Ok(command) => spec.core.kind != CoreKind::Meow && config_dir is Some
                && command.program@ == spec.core.binary_path@ && text::texts(command.args@)
                == seq!["-t"@, "-d"@, spec.working_dir@, "-f"@, spec.config_path@]
                && command.safe_paths@ == spec.working_dir@ + safe_paths_separator(platform)
                + config_dir->0@,
            Err(error) => if spec.core.kind == CoreKind::Meow {
                error@ == ErrorView::UnsupportedCore(CoreKind::Meow)
            } else {
                config_dir is None && error@ == ErrorView::ConfigNotFound(spec.config_path@)
            },
        },
{
    if spec.core.kind == CoreKind::Meow {
        return Err(Error::UnsupportedCore(spec.core.kind));
    }
    let config_dir: String = match config_dir {
        Some(dir) => dir,
        None => {
            return Err(Error::ConfigNotFound(spec.config_path.clone()));
        },
    };
    Ok(
        CheckCommand {
            program: spec.core.binary_path.clone(),
            args: check_args(spec.working_dir.as_str(), spec.config_path.as_str()),
            safe_paths: mihomo_safe_paths(
                platform,
                spec.working_dir.as_str(),
                config_dir.as_str(),
            ),
        },
    )
}

/// The validation run of a spec. What the directory of another config path than
/// a portable one is depends on the machine; what it leads to is decided by
/// [`check_command_in`].
pub fn check_command(spec: &InstanceSpec, platform: Platform) -> (res: Result<CheckCommand, Error>)
    ensures
        match res {
            Ok(command) => spec.core.kind != CoreKind::Meow && command.program@
                == spec.core.binary_path@ && text::texts(command.args@) == seq![
                "-t"@,
                "-d"@,
                spec.working_dir@,
                "-f"@,
                spec.config_path@,
            ] && exists|n: int|
                0 <= n < spec.config_path@.len() && command.safe_paths@ == spec.working_dir@
                    + safe_paths_separator(platform) + #[trigger] spec.config_path@.take(n),
            Err(error) => if spec.core.kind == CoreKind::Meow {
                error@ == ErrorView::UnsupportedCore(CoreKind::Meow)
            } else {
                error@ == ErrorView::ConfigNotFound(spec.config_path@)
            },
        },
        forall|dir: Seq<char>, name: Seq<char>| #[trigger]
            path::splits(dir, name, spec.config_path@) && spec.core.kind != CoreKind::Meow ==> res
                is Ok && res->Ok_0.safe_paths@ == spec.working_dir@ + safe_paths_separator(platform)
                + dir,
{
    let config_dir: Option<String> = path::parent(spec.config_path.as_str());
    check_command_in(spec, platform, config_dir)
}

/// What a validation run that failed says, to people.
pub open spec fn check_failure(kind: CoreKind, stdout: Seq<char>, stderr: Seq<char>) -> Seq<char> {
    if kind == CoreKind::ClashRust {
        stdout + "\n"@ + stderr
    } else {
        check_message(text::trimmed(stdout))
    }
}

/// What a validation run found: a run without success becomes an error with a
/// condensed message.
pub fn check_config(kind: CoreKind, success: bool, stdout: &str, stderr: &str) -> (res: Result<
    (),
    Error,
>)
    requires
        !success && kind != CoreKind::ClashRust ==> cuttable(text::trimmed(stdout@))
            && text::trimmed(stdout@).len() + 17 <= usize::MAX,
    ensures
        match res {
            Ok(_) => success,
            Err(error) => !success && error@ == ErrorView::ConfigCheckFailed(
                check_failure(kind, stdout@, stderr@),
            ),
        },
{
    if success {
        return Ok(());
    }
    let message: String = match kind {
        CoreKind::ClashRust => text::concat3(stdout, "\n", stderr),
        _ => parse_check_output(text::trim(stdout)),
    };
    Err(Error::ConfigCheckFailed(message))
}

/// A core that can be run gets both its paths: its working directory behind
/// `-d`, and its config at the end, behind a flag. Only one kind cannot be run.
pub proof fn a_core_is_told_both_paths(
    kind: CoreKind,
    working_dir: Seq<char>,
    config_path: Seq<char>,
)
    ensures
        ({
            let args = launch_args(kind, working_dir, config_path);
            &&& args is None <==> kind == CoreKind::Meow
            &&& args is Some ==> {
                let list = args->0;
                &&& list.len() >= 4
                &&& list.last() == config_path
                &&& list[list.len() - 2] == (if kind == CoreKind::ClashRust {
                    "-c"@
                } else {
                    "-f"@
                })
                &&& list[list.len() - 3] == working_dir
                &&& list[list.len() - 4] == "-d"@
                &&& kind == CoreKind::Mihomo ==> list[0] == "-m"@
            }
        }),
{
}

proof fn lemma_last_error_line(lines: Seq<Seq<char>>) -> (at: int)
    ensures
        -1 <= at < lines.len(),
        at < 0 <==> last_error_line(lines) is None,
        at >= 0 ==> error_line(lines[at]) && last_error_line(lines) == Some(lines[at]),
        forall|i: int| at < i < lines.len() ==> !error_line(#[trigger] lines[i]),
    decreases lines.len(),
{
    if lines.len() == 0 {
        -1
    } else if error_line(lines.last()) {
        lines.len() - 1
    } else {
        let at = lemma_last_error_line(lines.drop_last());
        assert forall|i: int| at < i < lines.len() implies !error_line(#[trigger] lines[i]) by {
            if i < lines.len() - 1 {
                assert(lines.drop_last()[i] == lines[i]);
            }
        }
        at
    }
}

/// The summary of what a core left behind is the last error that it logged, if
/// it is of the kind that logs so and logged one; else it is all of it.
pub proof fn a_summary_is_the_last_error(kind: CoreKind, stderr_tail: Seq<char>)
    ensures
        kind != CoreKind::Mihomo ==> condensed(kind, stderr_tail) == stderr_tail,
        kind == CoreKind::Mihomo && (forall|i: int|
            0 <= i < text::lines(stderr_tail).len() ==> !error_line(
                #[trigger] text::lines(stderr_tail)[i],
            )) ==> condensed(kind, stderr_tail) == stderr_tail,
        kind == CoreKind::Mihomo ==> forall|i: int|
            0 <= i < text::lines(stderr_tail).len() && error_line(
                #[trigger] text::lines(stderr_tail)[i],
            ) && (forall|j: int|
                i < j < text::lines(stderr_tail).len() ==> !error_line(
                    #[trigger] text::lines(stderr_tail)[j],
                )) ==> condensed(kind, stderr_tail) == check_message(text::lines(stderr_tail)[i]),
{
    let lines = text::lines(stderr_tail);
    let at = lemma_last_error_line(lines);
    if kind == CoreKind::Mihomo {
        assert forall|i: int|
            0 <= i < lines.len() && error_line(#[trigger] lines[i]) && (forall|j: int|
                i < j < lines.len() ==> !error_line(#[trigger] lines[j])) implies condensed(
            kind,
            stderr_tail,
        ) == check_message(lines[i]) by {
            assert(at <= i);
            if at < i {
                assert(!error_line(lines[i]));
            }
        }
    }
}

/// The message of a log is a part of the log, and all of it where the log has
/// neither of the two forms that hold one.
pub proof fn a_message_is_part_of_its_log(log: Seq<char>)
    requires
        cuttable(log),
    ensures
        !structured(log) && text::find(log, "error="@) is None ==> check_message(log) == log,
        structured(log) ==> 0 < message_start(log) && exists|end: int|
            message_start(log) <= end < log.len() && log[end] == '"' && check_message(log)
                == #[trigger] log.subrange(message_start(log), end) && forall|i: int|
                end < i < log.len() ==> log[i] != '"',
{
    text::lemma_find_from(log, "level=error msg="@, 0);
    text::lemma_find_from(log, "msg="@, 0);
    text::lemma_rfind_before(log, '"', log.len() as int);
    if structured(log) {
        let end = text::rfind(log, '"')->0;
        assert(message_start(log) > 0);
        assert(0 <= end < log.len() && log[end] == '"');
        assert(check_message(log) == log.subrange(message_start(log), end));
    }
}

/// A config that a check refuses is told with all that the core wrote, where its
/// kind writes no log of a known form.
pub proof fn a_check_tells_both_outputs(stdout: Seq<char>, stderr: Seq<char>)
    ensures
        ({
            let told = check_failure(CoreKind::ClashRust, stdout, stderr);
            &&& told.take(stdout.len() as int) == stdout
            &&& told.skip(told.len() - stderr.len()) == stderr
        }),
{
    let told = check_failure(CoreKind::ClashRust, stdout, stderr);
    assert(told.take(stdout.len() as int) =~= stdout);
    assert(told.skip(told.len() - stderr.len()) =~= stderr);
}

} // verus!
