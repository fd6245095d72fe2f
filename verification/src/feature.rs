//! Which Clash-family cores speak which optional protocol features, and from
//! which release onwards.

use crate::kind::CoreKind;
use crate::platform::Platform;
use crate::text;
use vstd::prelude::*;
use vstd::string::*;

verus! {

/// An optional capability of a core.
#[derive(Debug, Clone, Copy, PartialEq, Eq, Structural)]
pub enum Feature {
    /// A unix socket or a named pipe for the controller.
    SystemPipeIpc,
}

/// Whether a feature is supported.
#[derive(Debug, PartialEq, Eq)]
pub enum Support {
    Yes,
    /// Supported by the versions that meet this requirement.
    Since(String),
    No,
}

/// The content of a [`Support`].
pub enum SupportView {
    Yes,
    Since(Seq<char>),
    No,
}

impl View for Support {
    type V = SupportView;

    open spec fn view(&self) -> SupportView {
        match *self {
            Support::Yes => SupportView::Yes,
            Support::Since(requirement) => SupportView::Since(requirement@),
            Support::No => SupportView::No,
        }
    }
}

/// Mihomo got `external-controller-unix` in v1.18.4.
pub const MIHOMO_UNIX: &'static str = ">=1.18.4";

/// Mihomo got `external-controller-pipe` in v1.18.9.
pub const MIHOMO_PIPE: &'static str = ">=1.18.9";

/// clash-rs got both keys in v0.9.1, and the unix socket worked from there on.
pub const CLASH_RS_UNIX: &'static str = ">=0.9.1";

/// Upgrades over the named pipe of clash-rs work from v0.9.7 onwards.
pub const CLASH_RS_PIPE: &'static str = ">=0.9.7";

/// The first release that has a feature.
pub struct Floor {
    pub major: u64,
    pub minor: u64,
    pub patch: u64,
}

impl Floor {
    /// The requirement to be at least this release.
    pub open spec fn text(self) -> Seq<char> {
        ">="@ + text::decimal(self.major as nat) + "."@ + text::decimal(self.minor as nat) + "."@
            + text::decimal(self.patch as nat)
    }
}

/// Whether a requirement asks for a release from `floor` onwards.
pub open spec fn is_floor(requirement: Seq<char>, floor: Floor) -> bool {
    requirement == floor.text()
}

/// A semantic version.
pub struct SemVersion {
    pub major: u64,
    pub minor: u64,
    pub patch: u64,
    /// Whether it is a prerelease.
    pub prerelease: bool,
}

impl SemVersion {
    /// Whether the version is a release from `floor` onwards. A prerelease never
    /// is.
    pub open spec fn meets(self, floor: Floor) -> bool {
        !self.prerelease && (self.major > floor.major || (self.major == floor.major && (self.minor
            > floor.minor || (self.minor == floor.minor && self.patch >= floor.patch))))
    }
}

/// The semantic version that a text stands for, if it stands for one.
pub uninterp spec fn version_parsed(text: Seq<char>) -> Option<SemVersion>;

/// Wraps `semver::VersionReq::parse` and `matches` on a version that
/// `semver::Version::parse` reads, for the requirement to be at least some
/// release: a release that is not older matches, a prerelease does not. Which
/// version a text stands for is left to the name [`version_parsed`].
#[verifier::external_body]
fn requirement_matches(requirement: &str, version: &str) -> (res: Option<bool>)
    requires
        exists|floor: Floor| is_floor(requirement@, floor),
    ensures
        forall|floor: Floor| #[trigger]
            is_floor(requirement@, floor) ==> res == match version_parsed(version@) {
                Some(parsed) => Some(parsed.meets(floor)),
                None => None::<bool>,
            },
{
    let requirement = semver::VersionReq::parse(requirement).ok()?;
    let version = semver::Version::parse(version).ok()?;
    Some(requirement.matches(&version))
}

/// What a requirement and whether it is met amount to; it is handed back where
/// that is not known.
pub open spec fn decided(requirement: Seq<char>, met: Option<bool>) -> SupportView {
    match met {
        Some(true) => SupportView::Yes,
        Some(false) => SupportView::No,
        None => SupportView::Since(requirement),
    }
}

/// What a requirement and whether it is met amount to.
pub fn decide(requirement: &str, met: Option<bool>) -> (res: Support)
    ensures
        res@ == decided(requirement@, met),
{
    match met {
        Some(true) => Support::Yes,
        Some(false) => Support::No,
        None => Support::Since(requirement.to_owned()),
    }
}

/// Whether a version, if it is known and semantic, meets a floor.
pub open spec fn met_by(floor: Floor, version: Option<Seq<char>>) -> Option<bool> {
    match version {
        Some(text) => match version_parsed(text) {
            Some(parsed) => Some(parsed.meets(floor)),
            None => None,
        },
        None => None,
    }
}

/// The content of an optional text.
pub open spec fn text_in(value: Option<&str>) -> Option<Seq<char>> {
    match value {
        Some(text) => Some(text@),
        None => None,
    }
}

/// Resolves a floor against a known version, or hands the requirement back where
/// the version is unknown or not semantic.
pub fn since(requirement: &str, version: Option<&str>) -> (res: Support)
    requires
        exists|floor: Floor| is_floor(requirement@, floor),
    ensures
        forall|floor: Floor| #[trigger]
            is_floor(requirement@, floor) ==> res@ == decided(
                requirement@,
                met_by(floor, text_in(version)),
            ),
{
    let met: Option<bool> = match version {
        Some(version) => requirement_matches(requirement, version),
        None => None,
    };
    decide(requirement, met)
}

/// The first release of `kind` with a local controller transport on `platform`.
pub open spec fn local_transport_floor(kind: CoreKind, platform: Platform) -> Option<Floor> {
    match (kind, platform) {
        (CoreKind::Mihomo, Platform::Unix) => Some(Floor { major: 1, minor: 18, patch: 4 }),
        (CoreKind::Mihomo, Platform::Windows) => Some(Floor { major: 1, minor: 18, patch: 9 }),
        (CoreKind::ClashRust, Platform::Unix) => Some(Floor { major: 0, minor: 9, patch: 1 }),
        (CoreKind::ClashRust, Platform::Windows) => Some(Floor { major: 0, minor: 9, patch: 7 }),
        _ => None,
    }
}

/// Whether `kind` speaks `feature` on `platform`: cores without a floor never
/// do.
pub open spec fn support_of(
    kind: CoreKind,
    feature: Feature,
    platform: Platform,
    version: Option<Seq<char>>,
) -> SupportView {
    match local_transport_floor(kind, platform) {
        Some(floor) => decided(floor.text(), met_by(floor, version)),
        None => SupportView::No,
    }
}

proof fn lemma_small_decimals()
    ensures
        text::decimal(0) == seq!['0'],
        text::decimal(1) == seq!['1'],
        text::decimal(4) == seq!['4'],
        text::decimal(7) == seq!['7'],
        text::decimal(9) == seq!['9'],
        text::decimal(18) == seq!['1', '8'],
{
    assert(text::decimal(18) =~= text::decimal(1).push(text::digit(8)));
    assert(text::decimal(18) =~= seq!['1', '8']);
}

/// The requirements that are asked for are the floors of the releases.
proof fn lemma_floors()
    ensures
        is_floor(MIHOMO_UNIX@, Floor { major: 1, minor: 18, patch: 4 }),
        is_floor(MIHOMO_PIPE@, Floor { major: 1, minor: 18, patch: 9 }),
        is_floor(CLASH_RS_UNIX@, Floor { major: 0, minor: 9, patch: 1 }),
        is_floor(CLASH_RS_PIPE@, Floor { major: 0, minor: 9, patch: 7 }),
{
    reveal_strlit(">=1.18.4");
    reveal_strlit(">=1.18.9");
    reveal_strlit(">=0.9.1");
    reveal_strlit(">=0.9.7");
    reveal_strlit(">=");
    reveal_strlit(".");
    lemma_small_decimals();
    assert(MIHOMO_UNIX@ =~= (Floor { major: 1, minor: 18, patch: 4 }).text());
    assert(MIHOMO_PIPE@ =~= (Floor { major: 1, minor: 18, patch: 9 }).text());
    assert(CLASH_RS_UNIX@ =~= (Floor { major: 0, minor: 9, patch: 1 }).text());
    assert(CLASH_RS_PIPE@ =~= (Floor { major: 0, minor: 9, patch: 7 }).text());
}

impl CoreKind {
    /// Whether this kind speaks `feature` on `platform`.
    ///
    /// With a semantic version the answer is decided. Without one, or with one
    /// that is not semantic, such as Mihomo's `alpha-<sha>`, the requirement is
    /// handed back. A prerelease never meets a floor.
    pub fn supports(&self, feature: Feature, platform: Platform, version: Option<&str>) -> (res:
        Support)
        ensures
            res@ == support_of(*self, feature, platform, text_in(version)),
    {
        proof {
            lemma_floors();
        }
        match (self, platform) {
            (CoreKind::Mihomo, Platform::Unix) => since(MIHOMO_UNIX, version),
            (CoreKind::Mihomo, Platform::Windows) => since(MIHOMO_PIPE, version),
            (CoreKind::ClashRust, Platform::Unix) => since(CLASH_RS_UNIX, version),
            (CoreKind::ClashRust, Platform::Windows) => since(CLASH_RS_PIPE, version),
            // Clash Premium only ever exposed its controller over TCP, and meow
            // refuses to start with a local one.
            (CoreKind::ClashPremium, _) => Support::No,
            (CoreKind::Meow, _) => Support::No,
        }
    }
}

/// A feature that a release has, every later release has too.
pub proof fn later_releases_keep_a_feature(earlier: SemVersion, later: SemVersion, floor: Floor)
    requires
        earlier.meets(floor),
        !later.prerelease,
        later.major > earlier.major || (later.major == earlier.major && (later.minor
            > earlier.minor || (later.minor == earlier.minor && later.patch >= earlier.patch))),
    ensures
        later.meets(floor),
{
}

/// No prerelease meets a floor.
pub proof fn prereleases_meet_no_floor(version: SemVersion, floor: Floor)
    requires
        version.prerelease,
    ensures
        !version.meets(floor),
{
}

/// A version that is known decides: the feature is there from its floor on,
/// releases only, and not before. An unknown version only tells the requirement,
/// and a kind without a floor never has the feature.
pub proof fn a_feature_is_there_from_its_floor_on(
    kind: CoreKind,
    feature: Feature,
    platform: Platform,
    version: Option<Seq<char>>,
)
    ensures
        ({
            let support = support_of(kind, feature, platform, version);
            let floor = local_transport_floor(kind, platform);
            let known = version is Some && version_parsed(version->0) is Some;
            let parsed = version_parsed(version->0)->0;
            &&& floor is Some <==> kind == CoreKind::Mihomo || kind == CoreKind::ClashRust
            &&& floor is None ==> support is No
            &&& floor is Some ==> (support is Since <==> !known)
            &&& support matches SupportView::Since(requirement) ==> requirement == floor->0.text()
            &&& floor is Some && known && parsed.prerelease ==> support is No
            &&& floor is Some && known && !parsed.prerelease ==> {
                &&& parsed.major > floor->0.major ==> support is Yes
                &&& parsed.major < floor->0.major ==> support is No
                &&& parsed.major == floor->0.major && parsed.minor > floor->0.minor ==> support
                    is Yes
                &&& parsed.major == floor->0.major && parsed.minor < floor->0.minor ==> support
                    is No
                &&& parsed.major == floor->0.major && parsed.minor == floor->0.minor
                    && parsed.patch >= floor->0.patch ==> support is Yes
                &&& parsed.major == floor->0.major && parsed.minor == floor->0.minor
                    && parsed.patch < floor->0.patch ==> support is No
            }
        }),
{
}

/// What a version has, every later release has; and a core that has named pipes
/// on Windows has unix sockets elsewhere.
pub proof fn support_is_never_lost(
    kind: CoreKind,
    platform: Platform,
    earlier: SemVersion,
    later: SemVersion,
)
    requires
        local_transport_floor(kind, platform) is Some,
    ensures
        ({
            let floor = local_transport_floor(kind, platform)->0;
            let after = later.major > earlier.major || (later.major == earlier.major && (later.minor
                > earlier.minor || (later.minor == earlier.minor && later.patch >= earlier.patch)));
            earlier.meets(floor) && after && !later.prerelease ==> later.meets(floor)
        }),
        earlier.meets(local_transport_floor(kind, Platform::Windows)->0) ==> earlier.meets(
            local_transport_floor(kind, Platform::Unix)->0,
        ),
{
}

} // verus!
