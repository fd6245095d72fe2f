//! What can go wrong while a core is managed.

use crate::kind::CoreKind;
use crate::state::{RevisionId, RevisionIdView};
use crate::text;
use vstd::prelude::*;
use vstd::string::*;

verus! {

/// An error of the core manager. Failures of the process, the controller API,
/// the YAML parser and the file system are kept as their messages.
#[derive(Debug, PartialEq, Eq)]
pub enum Error {
    AlreadyRunning,
    NotStarted,
    ConfigNotFound(String),
    BinaryNotFound(String),
    ControllerMissing,
    UnsupportedCore(CoreKind),
    ConfigCheckFailed(String),
    InvalidConfig(String),
    InvalidManagerOptions(String),
    UnsafeRuntimeArtifact(String),
    RuntimeDirectoryOwned(String),
    StopUnconfirmed(String),
    ManagerQuarantined { epoch: u64, reason: String },
    RevisionConflict { expected: RevisionId, actual: Option<RevisionId> },
    ApplyFailed(String),
    ApplyRollbackFailed { apply: String, rollback: String },
    DurabilityUncertain { source: Box<Error>, warning: String },
    StartupTimeout { stderr_tail: String },
    StartupFailed { stderr_tail: String },
    CoreVersionProbeFailed { binary_path: String, detail: String },
    RequiredLocalIpcUnsupported,
    Process(String),
    Api(String),
    Yaml(String),
    Io(String),
}

/// The content of an [`Error`].
pub enum ErrorView {
    AlreadyRunning,
    NotStarted,
    ConfigNotFound(Seq<char>),
    BinaryNotFound(Seq<char>),
    ControllerMissing,
    UnsupportedCore(CoreKind),
    ConfigCheckFailed(Seq<char>),
    InvalidConfig(Seq<char>),
    InvalidManagerOptions(Seq<char>),
    UnsafeRuntimeArtifact(Seq<char>),
    RuntimeDirectoryOwned(Seq<char>),
    StopUnconfirmed(Seq<char>),
    ManagerQuarantined { epoch: u64, reason: Seq<char> },
    RevisionConflict { expected: RevisionIdView, actual: Option<RevisionIdView> },
    ApplyFailed(Seq<char>),
    ApplyRollbackFailed { apply: Seq<char>, rollback: Seq<char> },
    DurabilityUncertain { source: Box<ErrorView>, warning: Seq<char> },
    StartupTimeout { stderr_tail: Seq<char> },
    StartupFailed { stderr_tail: Seq<char> },
    CoreVersionProbeFailed { binary_path: Seq<char>, detail: Seq<char> },
    RequiredLocalIpcUnsupported,
    Process(Seq<char>),
    Api(Seq<char>),
    Yaml(Seq<char>),
    Io(Seq<char>),
}

impl Error {
    /// The content of this error.
    pub open spec fn content(self) -> ErrorView
        decreases self,
    {
        match self {
            Error::AlreadyRunning => ErrorView::AlreadyRunning,
            Error::NotStarted => ErrorView::NotStarted,
            Error::ConfigNotFound(path) => ErrorView::ConfigNotFound(path@),
            Error::BinaryNotFound(path) => ErrorView::BinaryNotFound(path@),
            Error::ControllerMissing => ErrorView::ControllerMissing,
            Error::UnsupportedCore(kind) => ErrorView::UnsupportedCore(kind),
            Error::ConfigCheckFailed(detail) => ErrorView::ConfigCheckFailed(detail@),
            Error::InvalidConfig(detail) => ErrorView::InvalidConfig(detail@),
            Error::InvalidManagerOptions(detail) => ErrorView::InvalidManagerOptions(detail@),
            Error::UnsafeRuntimeArtifact(path) => ErrorView::UnsafeRuntimeArtifact(path@),
            Error::RuntimeDirectoryOwned(path) => ErrorView::RuntimeDirectoryOwned(path@),
            Error::StopUnconfirmed(detail) => ErrorView::StopUnconfirmed(detail@),
            Error::ManagerQuarantined { epoch, reason } => ErrorView::ManagerQuarantined {
                epoch,
                reason: reason@,
            },
            Error::RevisionConflict { expected, actual } => ErrorView::RevisionConflict {
                expected: expected@,
                actual: match actual {
                    Some(id) => Some(id@),
                    None => None,
                },
            },
            Error::ApplyFailed(detail) => ErrorView::ApplyFailed(detail@),
            Error::ApplyRollbackFailed { apply, rollback } => ErrorView::ApplyRollbackFailed {
                apply: apply@,
                rollback: rollback@,
            },
            Error::DurabilityUncertain { source, warning } => ErrorView::DurabilityUncertain {
                source: Box::new((*source).content()),
                warning: warning@,
            },
            Error::StartupTimeout { stderr_tail } => ErrorView::StartupTimeout {
                stderr_tail: stderr_tail@,
            },
            Error::StartupFailed { stderr_tail } => ErrorView::StartupFailed {
                stderr_tail: stderr_tail@,
            },
            Error::CoreVersionProbeFailed {
                binary_path,
                detail,
            } => ErrorView::CoreVersionProbeFailed { binary_path: binary_path@, detail: detail@ },
            Error::RequiredLocalIpcUnsupported => ErrorView::RequiredLocalIpcUnsupported,
            Error::Process(detail) => ErrorView::Process(detail@),
            Error::Api(detail) => ErrorView::Api(detail@),
            Error::Yaml(detail) => ErrorView::Yaml(detail@),
            Error::Io(detail) => ErrorView::Io(detail@),
        }
    }
}

impl View for Error {
    type V = ErrorView;

    open spec fn view(&self) -> ErrorView {
        self.content()
    }
}

/// What `format!("{:?}")` makes of a string: the quoted and escaped form.
pub uninterp spec fn debug_quoted(text: Seq<char>) -> Seq<char>;

/// Wraps the `Debug` formatting of `str`. How the escapes look is left to the
/// name [`debug_quoted`].
#[verifier::external_body]
fn quote(text: &str) -> (res: String)
    ensures
        res@ == debug_quoted(text@),
{
    format!("{text:?}")
}

/// How an optional revision identity reads in its debug form.
pub open spec fn debug_revision(id: Option<RevisionIdView>) -> Seq<char> {
    match id {
        Some(id) => "Some(RevisionId { epoch: "@ + text::decimal(id.epoch as nat)
            + ", generation: "@ + text::decimal(id.generation as nat) + ", effective_hash: "@
            + debug_quoted(id.effective_hash) + " })"@,
        None => "None"@,
    }
}

fn debug_revision_text(id: &Option<RevisionId>) -> (res: String)
    ensures
        res@ == debug_revision(
            match *id {
                Some(id) => Some(id@),
                None => None,
            },
        ),
{
    match id {
        Some(id) => {
            let epoch: String = text::decimal_text(id.epoch);
            let generation: String = text::decimal_text(id.generation);
            let hash: String = quote(id.effective_hash.as_str());
            let mut res: String = text::concat4(
                "Some(RevisionId { epoch: ",
                epoch.as_str(),
                ", generation: ",
                generation.as_str(),
            );
            res.append(", effective_hash: ");
            res.append(hash.as_str());
            res.append(" })");
            res
        },
        None => "None".to_owned(),
    }
}

impl ErrorView {
    /// How the error reads in a message.
    pub open spec fn text(self) -> Seq<char>
        decreases self,
    {
        match self {
            ErrorView::AlreadyRunning => "core is already running"@,
            ErrorView::NotStarted => "core is not running"@,
            ErrorView::ConfigNotFound(path) => "config file not found: "@ + path,
            ErrorView::BinaryNotFound(path) => "core binary not found: "@ + path,
            ErrorView::ControllerMissing =>
                "no external controller configured; the version health probe needs one"@,
            ErrorView::UnsupportedCore(kind) => "core kind `"@ + kind.name()
                + "` has no launch profile yet"@,
            ErrorView::ConfigCheckFailed(detail) => "config check failed: "@ + detail,
            ErrorView::InvalidConfig(detail) => "invalid runtime config: "@ + detail,
            ErrorView::InvalidManagerOptions(detail) => "invalid manager options: "@ + detail,
            ErrorView::UnsafeRuntimeArtifact(path) => "unsafe runtime artifact: "@ + path,
            ErrorView::RuntimeDirectoryOwned(path) =>
                "runtime directory is already owned by another manager: "@ + path,
            ErrorView::StopUnconfirmed(detail) => "core process death could not be confirmed: "@
                + detail,
            ErrorView::ManagerQuarantined { epoch, reason } => "manager is quarantined by epoch "@
                + text::decimal(epoch as nat) + ": "@ + reason,
            ErrorView::RevisionConflict { expected, actual } =>
                "config revision conflict: expected "@ + expected.text() + ", actual "@
                + debug_revision(actual),
            ErrorView::ApplyFailed(detail) => "config apply failed: "@ + detail,
            ErrorView::ApplyRollbackFailed { apply, rollback } => "config apply failed ("@ + apply
                + "); rollback also failed ("@ + rollback + ")"@,
            ErrorView::DurabilityUncertain { source, warning } => (*source).text()
                + "; runtime durability is uncertain: "@ + warning,
            ErrorView::StartupTimeout { stderr_tail } =>
                "core did not become healthy before the startup timeout; stderr tail:\n"@
                + stderr_tail,
            ErrorView::StartupFailed { stderr_tail } => "core failed to start; stderr tail:\n"@
                + stderr_tail,
            ErrorView::CoreVersionProbeFailed {
                binary_path,
                detail,
            } => "failed to probe the version of core binary "@ + binary_path + ": "@ + detail,
            ErrorView::RequiredLocalIpcUnsupported =>
                "this core does not support the required local IPC transport"@,
            ErrorView::Process(detail) => detail,
            ErrorView::Api(detail) => detail,
            ErrorView::Yaml(detail) => "failed to process config YAML: "@ + detail,
            ErrorView::Io(detail) => detail,
        }
    }
}

impl Error {
    /// The error as a message.
    pub fn message(&self) -> (res: String)
        ensures
            res@ == self@.text(),
        decreases self,
    {
        match self {
            Error::AlreadyRunning => "core is already running".to_owned(),
            Error::NotStarted => "core is not running".to_owned(),
            Error::ConfigNotFound(path) => text::concat("config file not found: ", path.as_str()),
            Error::BinaryNotFound(path) => text::concat("core binary not found: ", path.as_str()),
            Error::ControllerMissing =>
                "no external controller configured; the version health probe needs one".to_owned(),
            Error::UnsupportedCore(kind) => text::concat3(
                "core kind `",
                kind.as_str(),
                "` has no launch profile yet",
            ),
            Error::ConfigCheckFailed(detail) => text::concat(
                "config check failed: ",
                detail.as_str(),
            ),
            Error::InvalidConfig(detail) => text::concat(
                "invalid runtime config: ",
                detail.as_str(),
            ),
            Error::InvalidManagerOptions(detail) => text::concat(
                "invalid manager options: ",
                detail.as_str(),
            ),
            Error::UnsafeRuntimeArtifact(path) => text::concat(
                "unsafe runtime artifact: ",
                path.as_str(),
            ),
            Error::RuntimeDirectoryOwned(path) => text::concat(
                "runtime directory is already owned by another manager: ",
                path.as_str(),
            ),
            Error::StopUnconfirmed(detail) => text::concat(
                "core process death could not be confirmed: ",
                detail.as_str(),
            ),
            Error::ManagerQuarantined { epoch, reason } => {
                let epoch: String = text::decimal_text(*epoch);
                text::concat4(
                    "manager is quarantined by epoch ",
                    epoch.as_str(),
                    ": ",
                    reason.as_str(),
                )
            },
            Error::RevisionConflict { expected, actual } => {
                let expected: String = expected.message();
                let actual: String = debug_revision_text(actual);
                text::concat4(
                    "config revision conflict: expected ",
                    expected.as_str(),
                    ", actual ",
                    actual.as_str(),
                )
            },
            Error::ApplyFailed(detail) => text::concat("config apply failed: ", detail.as_str()),
            Error::ApplyRollbackFailed { apply, rollback } => {
                let mut res: String = text::concat4(
                    "config apply failed (",
                    apply.as_str(),
                    "); rollback also failed (",
                    rollback.as_str(),
                );
                res.append(")");
                res
            },
            Error::DurabilityUncertain { source, warning } => {
                let inner: String = source.message();
                text::concat3(
                    inner.as_str(),
                    "; runtime durability is uncertain: ",
                    warning.as_str(),
                )
            },
            Error::StartupTimeout { stderr_tail } => text::concat(
                "core did not become healthy before the startup timeout; stderr tail:\n",
                stderr_tail.as_str(),
            ),
            Error::StartupFailed { stderr_tail } => text::concat(
                "core failed to start; stderr tail:\n",
                stderr_tail.as_str(),
            ),
            Error::CoreVersionProbeFailed { binary_path, detail } => text::concat4(
                "failed to probe the version of core binary ",
                binary_path.as_str(),
                ": ",
                detail.as_str(),
            ),
            Error::RequiredLocalIpcUnsupported =>
                "this core does not support the required local IPC transport".to_owned(),
            Error::Process(detail) => detail.clone(),
            Error::Api(detail) => detail.clone(),
            Error::Yaml(detail) => text::concat("failed to process config YAML: ", detail.as_str()),
            Error::Io(detail) => detail.clone(),
        }
    }

    /// Whether the error says that a process may still be alive.
    pub fn is_stop_unconfirmed(&self) -> (res: bool)
        ensures
            res == (self is StopUnconfirmed),
    {
        match self {
            Error::StopUnconfirmed(_) => true,
            _ => false,
        }
    }
}

/// Whether `whole` ends with `part`.
pub open spec fn ends_with(whole: Seq<char>, part: Seq<char>) -> bool {
    part.len() <= whole.len() && whole.skip(whole.len() - part.len()) == part
}

/// A message ends with what its error is about: the path, the detail, the reason
/// or the output that it carries.
pub proof fn a_message_tells_its_detail(error: ErrorView)
    ensures
        match error {
            ErrorView::ConfigNotFound(detail) => ends_with(error.text(), detail),
            ErrorView::BinaryNotFound(detail) => ends_with(error.text(), detail),
            ErrorView::ConfigCheckFailed(detail) => ends_with(error.text(), detail),
            ErrorView::InvalidConfig(detail) => ends_with(error.text(), detail),
            ErrorView::InvalidManagerOptions(detail) => ends_with(error.text(), detail),
            ErrorView::UnsafeRuntimeArtifact(detail) => ends_with(error.text(), detail),
            ErrorView::RuntimeDirectoryOwned(detail) => ends_with(error.text(), detail),
            ErrorView::StopUnconfirmed(detail) => ends_with(error.text(), detail),
            ErrorView::ManagerQuarantined { reason, .. } => ends_with(error.text(), reason),
            ErrorView::ApplyFailed(detail) => ends_with(error.text(), detail),
            ErrorView::DurabilityUncertain { source, warning } => ends_with(error.text(), warning)
                && error.text().take((*source).text().len() as int) == (*source).text(),
            ErrorView::StartupTimeout { stderr_tail } => ends_with(error.text(), stderr_tail),
            ErrorView::StartupFailed { stderr_tail } => ends_with(error.text(), stderr_tail),
            ErrorView::CoreVersionProbeFailed { detail, .. } => ends_with(error.text(), detail),
            ErrorView::Process(detail) => error.text() == detail,
            ErrorView::Api(detail) => error.text() == detail,
            ErrorView::Yaml(detail) => ends_with(error.text(), detail),
            ErrorView::Io(detail) => error.text() == detail,
            _ => true,
        },
{
    let whole = error.text();
    match error {
        ErrorView::ConfigNotFound(d) => assert(whole.skip(whole.len() - d.len()) =~= d),
        ErrorView::BinaryNotFound(d) => assert(whole.skip(whole.len() - d.len()) =~= d),
        ErrorView::ConfigCheckFailed(d) => assert(whole.skip(whole.len() - d.len()) =~= d),
        ErrorView::InvalidConfig(d) => assert(whole.skip(whole.len() - d.len()) =~= d),
        ErrorView::InvalidManagerOptions(d) => assert(whole.skip(whole.len() - d.len()) =~= d),
        ErrorView::UnsafeRuntimeArtifact(d) => assert(whole.skip(whole.len() - d.len()) =~= d),
        ErrorView::RuntimeDirectoryOwned(d) => assert(whole.skip(whole.len() - d.len()) =~= d),
        ErrorView::StopUnconfirmed(d) => assert(whole.skip(whole.len() - d.len()) =~= d),
        ErrorView::ManagerQuarantined { reason: d, .. } => assert(whole.skip(whole.len() - d.len())
            =~= d),
        ErrorView::ApplyFailed(d) => assert(whole.skip(whole.len() - d.len()) =~= d),
        ErrorView::DurabilityUncertain { source, warning: d } => {
            assert(whole.skip(whole.len() - d.len()) =~= d);
            assert(whole.take((*source).text().len() as int) =~= (*source).text());
        },
        ErrorView::StartupTimeout { stderr_tail: d } => assert(whole.skip(whole.len() - d.len())
            =~= d),
        ErrorView::StartupFailed { stderr_tail: d } => assert(whole.skip(whole.len() - d.len())
            =~= d),
        ErrorView::CoreVersionProbeFailed { detail: d, .. } => assert(whole.skip(
            whole.len() - d.len(),
        ) =~= d),
        ErrorView::Yaml(d) => assert(whole.skip(whole.len() - d.len()) =~= d),
        _ => {},
    }
}

/// An error reads as what it is, as far as anything is decided by it.
pub proof fn an_error_reads_as_itself(error: Error)
    ensures
        error@ is StopUnconfirmed <==> error is StopUnconfirmed,
        error@ is NotStarted <==> error is NotStarted,
        error@ is AlreadyRunning <==> error is AlreadyRunning,
        error@ is ManagerQuarantined <==> error is ManagerQuarantined,
        error@ is RevisionConflict <==> error is RevisionConflict,
        error@ is DurabilityUncertain <==> error is DurabilityUncertain,
        error matches Error::StopUnconfirmed(detail) ==> error@ == ErrorView::StopUnconfirmed(
            detail@,
        ),
        error matches Error::Io(detail) ==> error@ == ErrorView::Io(detail@),
{
}

} // verus!
