//! Preparing the runtime config of an epoch before anything is started.

use super::Launch;
use crate::error::{Error, ErrorView};
use crate::host::{Host, Url};
use crate::kind;
use crate::kind::CoreKind;
use crate::path;
use crate::share::{copy_text, share};
use crate::spec::{CoreSpec, InstanceSpec, ResolvedController};
use crate::state;
use crate::state::ConfigRevision;
use crate::text;
use serde_yaml_ng::Mapping;
use std::sync::Arc;
use vstd::prelude::*;
use vstd::string::*;

verus! {

/// A runtime config that was derived from the source: its controller, the
/// hashes, and the documents.
#[derive(Debug)]
pub struct DerivedRuntime {
    pub controller: ResolvedController,
    pub source_hash: String,
    pub effective_hash: String,
    pub source_document: Arc<Mapping>,
    pub effective_document: Arc<Mapping>,
}

/// What is prepared.
#[derive(Debug)]
pub enum Purpose {
    /// A new epoch.
    Launch,
    /// A new epoch that starts beside the old one.
    Graceful,
    /// The next generation of the current epoch.
    Apply { revision: ConfigRevision },
}

/// What every step of a preparation knows.
#[derive(Debug)]
pub struct Preparation {
    pub spec: Arc<InstanceSpec>,
    pub epoch: u64,
    /// Where the pid record of the epoch goes.
    pub pid_path: String,
    pub purpose: Purpose,
}

/// A step of a preparation.
#[derive(Debug)]
pub enum PrepareStep {
    /// The core binary is looked for.
    FindBinary,
    /// The full runtime config is derived.
    Derive,
    /// The bootstrap config is derived, too.
    DeriveBootstrap { full: DerivedRuntime },
    /// The patch that leads from the bootstrap to the full config is made.
    Compare { full: DerivedRuntime },
    /// The full config is written.
    Stage { full: DerivedRuntime },
    /// The full config, as it was staged, is checked by the core.
    Check { full: DerivedRuntime, staged: String },
    /// The bootstrap config is written.
    StageBootstrap { full: DerivedRuntime },
    /// The bootstrap config, as it was staged, is checked by the core.
    CheckBootstrap { full: DerivedRuntime, staged: String },
    /// What was checked last is put in place.
    Commit { full: DerivedRuntime, staged: String },
}

/// The work that a [`PrepareStep`] waits for.
#[derive(Debug, Clone, Copy, PartialEq, Eq)]
pub enum PrepareWork<'a> {
    FindBinary { binary_path: &'a str },
    Derive,
    DeriveBootstrap,
    Compare,
    Stage,
    StageBootstrap,
    /// Have the core check the config at the path.
    Check { config_path: &'a str },
    /// Put the config at the path in place.
    Commit { staged: &'a str },
}

/// The content of a [`PrepareWork`].
pub enum PrepareWorkView {
    FindBinary { binary_path: Seq<char> },
    Derive,
    DeriveBootstrap,
    Compare,
    Stage,
    StageBootstrap,
    Check { config_path: Seq<char> },
    Commit { staged: Seq<char> },
}

impl<'a> View for PrepareWork<'a> {
    type V = PrepareWorkView;

    open spec fn view(&self) -> PrepareWorkView {
        match *self {
            PrepareWork::FindBinary { binary_path } => PrepareWorkView::FindBinary {
                binary_path: binary_path@,
            },
            PrepareWork::Derive => PrepareWorkView::Derive,
            PrepareWork::DeriveBootstrap => PrepareWorkView::DeriveBootstrap,
            PrepareWork::Compare => PrepareWorkView::Compare,
            PrepareWork::Stage => PrepareWorkView::Stage,
            PrepareWork::StageBootstrap => PrepareWorkView::StageBootstrap,
            PrepareWork::Check { config_path } => PrepareWorkView::Check {
                config_path: config_path@,
            },
            PrepareWork::Commit { staged } => PrepareWorkView::Commit { staged: staged@ },
        }
    }
}

/// What came of a [`PrepareStep`].
#[derive(Debug)]
pub enum PrepareReport {
    BinaryFound(bool),
    Derived(Result<DerivedRuntime, Error>),
    BootstrapDerived(Result<ResolvedController, Error>),
    Compared(Result<(), Error>),
    /// Where the config was staged.
    Staged(Result<String, Error>),
    Checked(Result<(), Error>),
    /// Where the config was put.
    Committed(Result<String, Error>),
}

/// Where a preparation stands.
#[derive(Debug)]
pub enum Prepared {
    Continue(PrepareStep),
    Finished(Result<Launch, Error>),
}

/// Whether `same` tells if two hosts are the same. The paths of local endpoints
/// are compared component by component.
pub open spec fn hosts_agree(a: Host, b: Host, same: bool) -> bool {
    match (a, b) {
        (Host::NamedPipe(x), Host::NamedPipe(y)) => path::agrees(x@, y@, same),
        (Host::UnixSocket(x), Host::UnixSocket(y)) => path::agrees(x@, y@, same),
        (Host::Http(x), Host::Http(y)) => same == (x.text@ == y.text@),
        _ => !same,
    }
}

/// Whether `same` tells if two controllers are the same.
pub open spec fn controllers_agree(
    a: ResolvedController,
    b: ResolvedController,
    same: bool,
) -> bool {
    if state::text_of(a.secret) == state::text_of(b.secret) {
        hosts_agree(a.host, b.host, same)
    } else {
        !same
    }
}

fn is_same_controller(a: &ResolvedController, b: &ResolvedController) -> (res: bool)
    ensures
        controllers_agree(*a, *b, res),
{
    let hosts: bool = match (&a.host, &b.host) {
        (Host::NamedPipe(x), Host::NamedPipe(y)) => path::same_path(x.as_str(), y.as_str()),
        (Host::UnixSocket(x), Host::UnixSocket(y)) => path::same_path(x.as_str(), y.as_str()),
        (Host::Http(x), Host::Http(y)) => text::same_text(x.text.as_str(), y.text.as_str()),
        _ => false,
    };
    let secrets: bool = match (&a.secret, &b.secret) {
        (Some(x), Some(y)) => text::same_text(x.as_str(), y.as_str()),
        (None, None) => true,
        _ => false,
    };
    hosts && secrets
}

/// Whether two cores are the same.
pub open spec fn same_core(a: CoreSpec, b: CoreSpec) -> bool {
    &&& a.kind == b.kind
    &&& a.binary_path == b.binary_path
    &&& a.version == b.version
    &&& text::texts(a.features@) == text::texts(b.features@)
}

/// Whether `checked` is `source` with its config at `config_path`.
pub open spec fn checked_for(
    checked: InstanceSpec,
    source: InstanceSpec,
    config_path: Seq<char>,
) -> bool {
    &&& same_core(checked.core, source.core)
    &&& checked.working_dir == source.working_dir
    &&& checked.pid_file == source.pid_file
    &&& checked.options == source.options
    &&& checked.config_path@ == config_path
}

/// Whether `effective` is `source` with its config at `runtime_path` and its pid
/// record at `pid_path`.
pub open spec fn effective_for(
    effective: InstanceSpec,
    source: InstanceSpec,
    runtime_path: Seq<char>,
    pid_path: Seq<char>,
) -> bool {
    &&& same_core(effective.core, source.core)
    &&& effective.working_dir == source.working_dir
    &&& effective.options == source.options
    &&& effective.config_path@ == runtime_path
    &&& state::text_of(effective.pid_file) == Some(pid_path)
}

fn copy_texts(list: &Vec<String>) -> (res: Vec<String>)
    ensures
        text::texts(res@) == text::texts(list@),
{
    let mut res: Vec<String> = Vec::new();
    let mut i: usize = 0;
    while i < list.len()
        invariant
            i <= list.len(),
            res.len() == i,
            forall|j: int| 0 <= j < i ==> (#[trigger] res@[j])@ == list@[j]@,
        decreases list.len() - i,
    {
        res.push(list[i].clone());
        i = i + 1;
    }
    assert(text::texts(res@) =~= text::texts(list@));
    res
}

fn copy_core(core: &CoreSpec) -> (res: CoreSpec)
    ensures
        same_core(res, *core),
{
    CoreSpec {
        kind: core.kind,
        binary_path: core.binary_path.clone(),
        version: copy_text(&core.version),
        features: copy_texts(&core.features),
    }
}

fn effective_spec(source: &InstanceSpec, runtime_path: &str, pid_path: &str) -> (res: InstanceSpec)
    ensures
        effective_for(res, *source, runtime_path@, pid_path@),
{
    InstanceSpec {
        core: copy_core(&source.core),
        config_path: runtime_path.to_owned(),
        working_dir: source.working_dir.clone(),
        pid_file: Some(pid_path.to_owned()),
        options: source.options,
    }
}

impl Preparation {
    /// The epoch that is prepared for.
    pub open spec fn target_epoch(self) -> u64 {
        match self.purpose {
            Purpose::Apply { revision } => revision.epoch,
            _ => self.epoch,
        }
    }

    /// The generation that is prepared.
    pub open spec fn generation(self) -> int {
        match self.purpose {
            Purpose::Apply { revision } => revision.generation + 1,
            _ => 1,
        }
    }

    /// Whether `launch` is what this preparation makes of `full` once its config
    /// is at `runtime_path`.
    pub open spec fn makes(self, launch: Launch, full: DerivedRuntime, runtime_path: Seq<char>) -> bool {
        &&& launch.source_spec == self.spec
        &&& effective_for(*launch.effective_spec, *self.spec, runtime_path, self.pid_path@)
        &&& launch.controller == full.controller
        &&& launch.revision.epoch == self.target_epoch()
        &&& launch.revision.generation == self.generation()
        &&& launch.revision.source_hash == full.source_hash
        &&& launch.revision.effective_hash == full.effective_hash
        &&& launch.revision.runtime_path@ == runtime_path
        &&& launch.source_document == full.source_document
        &&& launch.effective_document == full.effective_document
    }

    /// Whether `next` is what follows a report. Any report other than the one
    /// that the step waits for changes nothing.
    pub open spec fn follows(self, step: PrepareStep, report: PrepareReport, next: Prepared) -> bool {
        match (step, report) {
            (PrepareStep::FindBinary, PrepareReport::BinaryFound(found)) => if !found {
                next matches Prepared::Finished(Err(error)) && error@ == ErrorView::BinaryNotFound(
                    self.spec.core.binary_path@,
                )
            } else if self.spec.core.kind == CoreKind::Meow {
                next matches Prepared::Finished(Err(error)) && error@ == ErrorView::UnsupportedCore(
                    CoreKind::Meow,
                )
            } else {
                next == Prepared::Continue(PrepareStep::Derive)
            },
            (PrepareStep::Derive, PrepareReport::Derived(Ok(full))) => next == Prepared::Continue(
                if self.purpose is Graceful {
                    PrepareStep::DeriveBootstrap { full }
                } else {
                    PrepareStep::Stage { full }
                },
            ),
            (
                PrepareStep::DeriveBootstrap { full },
                PrepareReport::BootstrapDerived(Ok(bootstrap)),
            ) => match next {
                Prepared::Continue(_) => next == Prepared::Continue(PrepareStep::Compare { full })
                    && controllers_agree(full.controller, bootstrap, true),
                Prepared::Finished(Err(error)) => error@ == ErrorView::InvalidConfig(
                    "full and bootstrap configs resolved different controllers"@,
                ) && controllers_agree(full.controller, bootstrap, false),
                _ => false,
            },
            (PrepareStep::Compare { full }, PrepareReport::Compared(Ok(_))) => next
                == Prepared::Continue(PrepareStep::Stage { full }),
            (PrepareStep::Stage { full }, PrepareReport::Staged(Ok(staged))) => next
                == Prepared::Continue(PrepareStep::Check { full, staged }),
            (
                PrepareStep::Check { full, staged },
                PrepareReport::Checked(Ok(_)),
            ) => match self.purpose {
                Purpose::Launch => next == Prepared::Continue(PrepareStep::Commit { full, staged }),
                Purpose::Graceful => next == Prepared::Continue(
                    PrepareStep::StageBootstrap { full },
                ),
                Purpose::Apply { revision } => next matches Prepared::Finished(Ok(launch))
                    && self.makes(launch, full, revision.runtime_path@),
            },
            (PrepareStep::StageBootstrap { full }, PrepareReport::Staged(Ok(staged))) => next
                == Prepared::Continue(PrepareStep::CheckBootstrap { full, staged }),
            (PrepareStep::CheckBootstrap { full, staged }, PrepareReport::Checked(Ok(_))) => next
                == Prepared::Continue(PrepareStep::Commit { full, staged }),
            (PrepareStep::Commit { full, .. }, PrepareReport::Committed(Ok(runtime_path))) => next
                matches Prepared::Finished(Ok(launch)) && self.makes(launch, full, runtime_path@),
            (PrepareStep::Derive, PrepareReport::Derived(Err(error))) => next
                == Prepared::Finished(Err(error)),
            (PrepareStep::DeriveBootstrap { .. }, PrepareReport::BootstrapDerived(Err(error))) => next
                == Prepared::Finished(Err(error)),
            (PrepareStep::Compare { .. }, PrepareReport::Compared(Err(error))) => next
                == Prepared::Finished(Err(error)),
            (PrepareStep::Stage { .. }, PrepareReport::Staged(Err(error))) => next
                == Prepared::Finished(Err(error)),
            (PrepareStep::Check { .. }, PrepareReport::Checked(Err(error))) => next
                == Prepared::Finished(Err(error)),
            (PrepareStep::StageBootstrap { .. }, PrepareReport::Staged(Err(error))) => next
                == Prepared::Finished(Err(error)),
            (PrepareStep::CheckBootstrap { .. }, PrepareReport::Checked(Err(error))) => next
                == Prepared::Finished(Err(error)),
            (PrepareStep::Commit { .. }, PrepareReport::Committed(Err(error))) => next
                == Prepared::Finished(Err(error)),
            (step, _) => next == Prepared::Continue(step),
        }
    }

    /// Prepares a new epoch.
    pub fn prepare_launch(spec: Arc<InstanceSpec>, epoch: u64, pid_path: String) -> (res: (
        Preparation,
        PrepareStep,
    ))
        ensures
            res == (
                Preparation { spec, epoch, pid_path, purpose: Purpose::Launch },
                PrepareStep::FindBinary,
            ),
    {
        (
            Preparation { spec, epoch, pid_path, purpose: Purpose::Launch },
            PrepareStep::FindBinary,
        )
    }

    /// Prepares a new epoch that starts beside the old one.
    pub fn prepare_graceful(spec: Arc<InstanceSpec>, epoch: u64, pid_path: String) -> (res: (
        Preparation,
        PrepareStep,
    ))
        ensures
            res == (
                Preparation { spec, epoch, pid_path, purpose: Purpose::Graceful },
                PrepareStep::FindBinary,
            ),
    {
        (
            Preparation { spec, epoch, pid_path, purpose: Purpose::Graceful },
            PrepareStep::FindBinary,
        )
    }

    /// Prepares the next generation of the current epoch.
    pub fn prepare_apply(
        spec: Arc<InstanceSpec>,
        current: &ConfigRevision,
        pid_path: String,
    ) -> (res: (Preparation, PrepareStep))
        ensures
            res == (
                Preparation {
                    spec,
                    epoch: current.epoch,
                    pid_path,
                    purpose: Purpose::Apply { revision: *current },
                },
                PrepareStep::FindBinary,
            ),
    {
        (
            Preparation {
                spec,
                epoch: current.epoch,
                pid_path,
                purpose: Purpose::Apply { revision: current.clone() },
            },
            PrepareStep::FindBinary,
        )
    }

    /// The work that a step waits for.
    pub fn work<'a>(&'a self, step: &'a PrepareStep) -> (res: PrepareWork<'a>)
        ensures
            res@ == match *step {
                PrepareStep::FindBinary => PrepareWorkView::FindBinary {
                    binary_path: self.spec.core.binary_path@,
                },
                PrepareStep::Derive => PrepareWorkView::Derive,
                PrepareStep::DeriveBootstrap { .. } => PrepareWorkView::DeriveBootstrap,
                PrepareStep::Compare { .. } => PrepareWorkView::Compare,
                PrepareStep::Stage { .. } => PrepareWorkView::Stage,
                PrepareStep::StageBootstrap { .. } => PrepareWorkView::StageBootstrap,
                PrepareStep::Check { staged, .. } => PrepareWorkView::Check {
                    config_path: staged@,
                },
                PrepareStep::CheckBootstrap { staged, .. } => PrepareWorkView::Check {
                    config_path: staged@,
                },
                PrepareStep::Commit { staged, .. } => PrepareWorkView::Commit { staged: staged@ },
            },
    {
        match step {
            PrepareStep::FindBinary => PrepareWork::FindBinary {
                binary_path: self.spec.core.binary_path.as_str(),
            },
            PrepareStep::Derive => PrepareWork::Derive,
            PrepareStep::DeriveBootstrap { .. } => PrepareWork::DeriveBootstrap,
            PrepareStep::Compare { .. } => PrepareWork::Compare,
            PrepareStep::Stage { .. } => PrepareWork::Stage,
            PrepareStep::StageBootstrap { .. } => PrepareWork::StageBootstrap,
            PrepareStep::Check { staged, .. } => PrepareWork::Check {
                config_path: staged.as_str(),
            },
            PrepareStep::CheckBootstrap { staged, .. } => PrepareWork::Check {
                config_path: staged.as_str(),
            },
            PrepareStep::Commit { staged, .. } => PrepareWork::Commit { staged: staged.as_str() },
        }
    }

    /// The spec under which the core checks the config at `config_path`: that of
    /// the preparation, but for the config.
    pub fn check_spec(&self, config_path: &str) -> (res: InstanceSpec)
        ensures
            checked_for(res, *self.spec, config_path@),
    {
        InstanceSpec {
            core: copy_core(&self.spec.core),
            config_path: config_path.to_owned(),
            working_dir: self.spec.working_dir.clone(),
            pid_file: copy_text(&self.spec.pid_file),
            options: self.spec.options,
        }
    }

    fn finish(&self, full: DerivedRuntime, runtime_path: String) -> (res: Launch)
        requires
            self.generation() <= u64::MAX,
        ensures
            self.makes(res, full, runtime_path@),
    {
        let effective: InstanceSpec = effective_spec(
            &self.spec,
            runtime_path.as_str(),
            self.pid_path.as_str(),
        );
        let (epoch, generation): (u64, u64) = match &self.purpose {
            Purpose::Apply { revision } => (revision.epoch, revision.generation + 1),
            _ => (self.epoch, 1),
        };
        Launch {
            source_spec: share(&self.spec),
            effective_spec: Arc::new(effective),
            controller: full.controller,
            revision: ConfigRevision {
                epoch,
                generation,
                source_hash: full.source_hash,
                effective_hash: full.effective_hash,
                runtime_path,
            },
            source_document: full.source_document,
            effective_document: full.effective_document,
        }
    }

    /// Goes on with the preparation.
    pub fn advance(&self, step: PrepareStep, report: PrepareReport) -> (res: Prepared)
        requires
            self.generation() <= u64::MAX,
        ensures
            self.follows(step, report, res),
    {
        match (step, report) {
            (PrepareStep::FindBinary, PrepareReport::BinaryFound(found)) => {
                if !found {
                    return Prepared::Finished(
                        Err(Error::BinaryNotFound(self.spec.core.binary_path.clone())),
                    );
                }
                match kind::run_args(
                    self.spec.core.kind,
                    self.spec.working_dir.as_str(),
                    self.spec.config_path.as_str(),
                ) {
                    Ok(_) => Prepared::Continue(PrepareStep::Derive),
                    Err(error) => Prepared::Finished(Err(error)),
                }
            },
            (PrepareStep::Derive, PrepareReport::Derived(Ok(full))) => match &self.purpose {
                Purpose::Graceful => Prepared::Continue(PrepareStep::DeriveBootstrap { full }),
                _ => Prepared::Continue(PrepareStep::Stage { full }),
            },
            (
                PrepareStep::DeriveBootstrap { full },
                PrepareReport::BootstrapDerived(Ok(bootstrap)),
            ) => {
                if is_same_controller(&full.controller, &bootstrap) {
                    Prepared::Continue(PrepareStep::Compare { full })
                } else {
                    Prepared::Finished(
                        Err(
                            Error::InvalidConfig(
                                "full and bootstrap configs resolved different controllers".to_owned(),
                            ),
                        ),
                    )
                }
            },
            (PrepareStep::Compare { full }, PrepareReport::Compared(Ok(_))) => Prepared::Continue(
                PrepareStep::Stage { full },
            ),
            (PrepareStep::Stage { full }, PrepareReport::Staged(Ok(staged))) => Prepared::Continue(
                PrepareStep::Check { full, staged },
            ),
            (
                PrepareStep::Check { full, staged },
                PrepareReport::Checked(Ok(_)),
            ) => match &self.purpose {
                Purpose::Launch => Prepared::Continue(PrepareStep::Commit { full, staged }),
                Purpose::Graceful => Prepared::Continue(PrepareStep::StageBootstrap { full }),
                Purpose::Apply { revision } => {
                    let runtime_path: String = revision.runtime_path.clone();
                    Prepared::Finished(Ok(self.finish(full, runtime_path)))
                },
            },
            (
                PrepareStep::StageBootstrap { full },
                PrepareReport::Staged(Ok(staged)),
            ) => Prepared::Continue(PrepareStep::CheckBootstrap { full, staged }),
            (
                PrepareStep::CheckBootstrap { full, staged },
                PrepareReport::Checked(Ok(_)),
            ) => Prepared::Continue(PrepareStep::Commit { full, staged }),
            (
                PrepareStep::Commit { full, .. },
                PrepareReport::Committed(Ok(runtime_path)),
            ) => Prepared::Finished(Ok(self.finish(full, runtime_path))),
            (PrepareStep::Derive, PrepareReport::Derived(Err(error))) => Prepared::Finished(
                Err(error),
            ),
            (
                PrepareStep::DeriveBootstrap { .. },
                PrepareReport::BootstrapDerived(Err(error)),
            ) => Prepared::Finished(Err(error)),
            (PrepareStep::Compare { .. }, PrepareReport::Compared(Err(error))) => Prepared::Finished(
                Err(error),
            ),
            (PrepareStep::Stage { .. }, PrepareReport::Staged(Err(error))) => Prepared::Finished(
                Err(error),
            ),
            (PrepareStep::Check { .. }, PrepareReport::Checked(Err(error))) => Prepared::Finished(
                Err(error),
            ),
            (
                PrepareStep::StageBootstrap { .. },
                PrepareReport::Staged(Err(error)),
            ) => Prepared::Finished(Err(error)),
            (
                PrepareStep::CheckBootstrap { .. },
                PrepareReport::Checked(Err(error)),
            ) => Prepared::Finished(Err(error)),
            (PrepareStep::Commit { .. }, PrepareReport::Committed(Err(error))) => Prepared::Finished(
                Err(error),
            ),
            (step, _) => Prepared::Continue(step),
        }
    }
}

/// Nothing is put in place before the core has checked it: what is committed is
/// the very file that was checked last, with success.
pub proof fn commits_follow_a_check(
    preparation: Preparation,
    step: PrepareStep,
    report: PrepareReport,
    next: Prepared,
    full: DerivedRuntime,
    staged: String,
)
    requires
        preparation.follows(step, report, next),
        next == Prepared::Continue(PrepareStep::Commit { full, staged }),
        !(step is Commit),
    ensures
        report matches PrepareReport::Checked(Ok(_)),
        step == (PrepareStep::Check { full, staged }) || step == (PrepareStep::CheckBootstrap {
            full,
            staged,
        }),
{
}

/// A prepared launch belongs to the epoch it was prepared for, and the next
/// generation of an epoch keeps the epoch and its runtime path.
pub proof fn prepared_launches_keep_their_epoch(
    preparation: Preparation,
    step: PrepareStep,
    report: PrepareReport,
    launch: Launch,
)
    requires
        preparation.follows(step, report, Prepared::Finished(Ok(launch))),
    ensures
        launch.revision.epoch == preparation.target_epoch(),
        preparation.purpose matches Purpose::Apply { revision } ==> launch.revision.epoch
            == revision.epoch && launch.revision.generation == revision.generation + 1 && (
        step is Check ==> launch.revision.runtime_path@ == revision.runtime_path@),
{
}

/// Nothing is put in place that the core has not checked: what is committed is
/// what was staged and checked last, and a launch comes only of a commit, or of a
/// check where it stays in its epoch.
pub proof fn only_what_was_checked_is_committed(
    preparation: Preparation,
    step: PrepareStep,
    report: PrepareReport,
    next: Prepared,
)
    requires
        preparation.follows(step, report, next),
    ensures
        next matches Prepared::Continue(PrepareStep::Commit { full, staged }) ==> step is Commit || (
        report is Checked && report->Checked_0 is Ok && match step {
            PrepareStep::Check { full: derived, staged: config } => preparation.purpose is Launch
                && derived == full && config == staged,
            PrepareStep::CheckBootstrap { full: derived, staged: config } => derived == full
                && config == staged,
            _ => false,
        }),
        next matches Prepared::Continue(PrepareStep::Check { full, staged }) ==> step is Check || (
        step == (PrepareStep::Stage { full }) && report == PrepareReport::Staged(Ok(staged))),
        next matches Prepared::Continue(PrepareStep::CheckBootstrap { full, staged }) ==> step
            is CheckBootstrap || (step == (PrepareStep::StageBootstrap { full }) && report
            == PrepareReport::Staged(Ok(staged))),
        next matches Prepared::Continue(PrepareStep::StageBootstrap { .. }) ==> step
            is StageBootstrap || (step is Check && report is Checked && report->Checked_0 is Ok
            && preparation.purpose is Graceful),
        next matches Prepared::Finished(Ok(launch)) ==> {
            &&& (step is Commit && report is Committed && report->Committed_0 is Ok) || (step
                is Check && report is Checked && report->Checked_0 is Ok
                && preparation.purpose is Apply)
            &&& launch.source_spec == preparation.spec
            &&& launch.effective_spec.config_path@ == launch.revision.runtime_path@
            &&& launch.effective_spec.core.kind == preparation.spec.core.kind
            &&& preparation.purpose matches Purpose::Apply { revision } ==> launch.revision.epoch
                == revision.epoch && launch.revision.generation == revision.generation + 1 && (
            step is Check ==> launch.revision.runtime_path@ == revision.runtime_path@)
            &&& !(preparation.purpose is Apply) ==> launch.revision.epoch == preparation.epoch
                && launch.revision.generation == 1
        },
{
}

/// A preparation that fails at any of its steps ends with that very error; a
/// core without a binary, or of a kind that cannot be run, is not prepared.
pub proof fn a_failed_step_ends_a_preparation(
    preparation: Preparation,
    step: PrepareStep,
    error: Error,
    next: Prepared,
    found: bool,
    after_search: Prepared,
)
    requires
        preparation.follows(
            step,
            match step {
                PrepareStep::FindBinary => PrepareReport::BinaryFound(false),
                PrepareStep::Derive => PrepareReport::Derived(Err(error)),
                PrepareStep::DeriveBootstrap { .. } => PrepareReport::BootstrapDerived(Err(error)),
                PrepareStep::Compare { .. } => PrepareReport::Compared(Err(error)),
                PrepareStep::Stage { .. } => PrepareReport::Staged(Err(error)),
                PrepareStep::StageBootstrap { .. } => PrepareReport::Staged(Err(error)),
                PrepareStep::Check { .. } => PrepareReport::Checked(Err(error)),
                PrepareStep::CheckBootstrap { .. } => PrepareReport::Checked(Err(error)),
                PrepareStep::Commit { .. } => PrepareReport::Committed(Err(error)),
            },
            next,
        ),
        preparation.follows(
            PrepareStep::FindBinary,
            PrepareReport::BinaryFound(found),
            after_search,
        ),
    ensures
        next is Finished && next->Finished_0 is Err,
        !(step is FindBinary) ==> next->Finished_0->Err_0 == error,
        after_search is Continue <==> found && preparation.spec.core.kind != CoreKind::Meow,
        !found ==> after_search->Finished_0->Err_0@ is BinaryNotFound,
        after_search is Continue ==> after_search->Continue_0 is Derive,
{
}

/// Two controllers are the same only if they have the same secret and the same
/// kind of transport; over HTTP the address decides.
pub proof fn different_controllers_are_told_apart(
    a: ResolvedController,
    b: ResolvedController,
    same: bool,
)
    requires
        controllers_agree(a, b, same),
    ensures
        same ==> state::text_of(a.secret) == state::text_of(b.secret),
        same ==> (a.host is Http <==> b.host is Http) && (a.host is NamedPipe
            <==> b.host is NamedPipe) && (a.host is UnixSocket <==> b.host is UnixSocket),
        a.host is Http && b.host is Http && state::text_of(a.secret) == state::text_of(b.secret)
            ==> (same <==> a.host->Http_0.text@ == b.host->Http_0.text@),
{
}

} // verus!
