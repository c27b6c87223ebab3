//! The version that `rustc --version` reports.

use crate::decimal::{decimal, parse_u32, parse_u32_str, u32_to_string, ParseIntError};
use crate::os::Host;
use crate::text::{debug_str, debug_text};
use crate::util::pattern::{captures, first_match, named_group, pattern_names, Captures};
use crate::util::version::{
    triple_of_parts, VersionTriple, VersionTripleError, VersionTripleErrorView,
};
use crate::view::{err_view, result_view};
use vstd::prelude::*;
use vstd::string::*;

verus! {

/// A search in a command's output that came to nothing.
#[derive(Debug)]
pub enum RunAndSearchError {
    /// The command could not be run; the text says why.
    CommandFailed(String),
    /// The output has no place that matches.
    SearchFailed { command: String, output: String },
    /// The pattern searched for is no regular expression.
    PatternInvalid { pattern: String },
}

/// A `RunAndSearchError` with its texts as sequences of characters.
pub enum RunAndSearchErrorView {
    CommandFailed(Seq<char>),
    SearchFailed { command: Seq<char>, output: Seq<char> },
    PatternInvalid { pattern: Seq<char> },
}

impl View for RunAndSearchError {
    type V = RunAndSearchErrorView;

    open spec fn view(&self) -> RunAndSearchErrorView {
        match self {
            RunAndSearchError::CommandFailed(cause) => RunAndSearchErrorView::CommandFailed(
                cause@,
            ),
            RunAndSearchError::SearchFailed { command, output } => {
                RunAndSearchErrorView::SearchFailed { command: command@, output: output@ }
            },
            RunAndSearchError::PatternInvalid { pattern } => {
                RunAndSearchErrorView::PatternInvalid { pattern: pattern@ }
            },
        }
    }
}

impl RunAndSearchErrorView {
    /// The sentence that describes the error.
    pub open spec fn message(self) -> Seq<char> {
        match self {
            RunAndSearchErrorView::CommandFailed(cause) => cause,
            RunAndSearchErrorView::SearchFailed { command, output } => {
                debug_text(command) + " output failed to match regex: "@ + debug_text(output)
            },
            RunAndSearchErrorView::PatternInvalid { pattern } => {
                debug_text(pattern) + " is no regular expression"@
            },
        }
    }
}

impl RunAndSearchError {
    pub fn to_string(&self) -> (r: String)
        ensures
            r@ == self@.message(),
    {
        match self {
            RunAndSearchError::CommandFailed(cause) => cause.clone(),
            RunAndSearchError::SearchFailed { command, output } => {
                debug_str(command.as_str()).concat(" output failed to match regex: ").concat(
                    debug_str(output.as_str()).as_str(),
                )
            },
            RunAndSearchError::PatternInvalid { pattern } => {
                debug_str(pattern.as_str()).concat(" is no regular expression")
            },
        }
    }
}

/// Searches the `output` that `command` printed for `pattern`.
pub fn run_and_search(command: &str, pattern: &str, output: &str) -> (r: Result<
    Captures,
    RunAndSearchError,
>)
    ensures
        match r {
            Ok(caps) => pattern_names(pattern@) == Some(caps.names.deep_view()) && first_match(
                pattern@,
                output@,
            ) == Some(caps.groups.deep_view()),
            Err(e) => e@ == if pattern_names(pattern@) is None {
                RunAndSearchErrorView::PatternInvalid { pattern: pattern@ }
            } else {
                RunAndSearchErrorView::SearchFailed { command: command@, output: output@ }
            } && (pattern_names(pattern@) is None || first_match(pattern@, output@) is None),
        },
{
    match captures(pattern, output) {
        Ok(Some(caps)) => Ok(caps),
        Ok(None) => Err(
            RunAndSearchError::SearchFailed {
                command: command.to_owned(),
                output: output.to_owned(),
            },
        ),
        Err(e) => Err(RunAndSearchError::PatternInvalid { pattern: e.pattern }),
    }
}

/// A group that a pattern does not have, or that took no part in a match.
#[derive(Debug)]
pub enum CaptureGroupError {
    InvalidCaptureGroup { group: String, string: String },
}

impl CaptureGroupError {
    /// The sentence that describes the error.
    pub open spec fn message(&self) -> Seq<char> {
        match self {
            CaptureGroupError::InvalidCaptureGroup { group, string } => {
                "Capture group "@ + debug_text(group@) + " missing from string "@ + debug_text(
                    string@,
                )
            },
        }
    }

    pub fn to_string(&self) -> (r: String)
        ensures
            r@ == self.message(),
    {
        match self {
            CaptureGroupError::InvalidCaptureGroup { group, string } => {
                "Capture group ".to_owned().concat(debug_str(group.as_str()).as_str()).concat(
                    " missing from string ",
                ).concat(debug_str(string.as_str()).as_str())
            },
        }
    }
}

/// What the group called `group` holds in a match found in `string`.
pub fn get_string_for_group(caps: &Captures, group: &str, string: &str) -> (r: Result<
    String,
    CaptureGroupError,
>)
    ensures
        match r {
            Ok(text) => caps.named(group@) == Some(text@),
            Err(CaptureGroupError::InvalidCaptureGroup { group: g, string: s }) => caps.named(
                group@,
            ) is None && g@ == group@ && s@ == string@,
        },
{
    match caps.name(group) {
        Some(text) => Ok(text),
        None => Err(
            CaptureGroupError::InvalidCaptureGroup {
                group: group.to_owned(),
                string: string.to_owned(),
            },
        ),
    }
}

/// What the group called `name` holds, for a group that took part.
fn group_text(caps: &Captures, name: &str) -> (r: String)
    requires
        caps.named(name@) is Some,
    ensures
        Some(r@) == caps.named(name@),
{
    match caps.name(name) {
        Some(text) => text,
        None => {
            String::new()
        },
    }
}

/// The triple that the groups `major`, `minor` and `patch` spell, read
/// from a match whose group `version` holds the whole version.
pub open spec fn triple_of_groups(
    names: Seq<Option<Seq<char>>>,
    groups: Seq<Option<Seq<char>>>,
) -> Result<VersionTriple, VersionTripleErrorView> {
    triple_of_parts(
        seq![
            named_group(names, groups, "major"@).unwrap(),
            named_group(names, groups, "minor"@).unwrap(),
            named_group(names, groups, "patch"@).unwrap(),
        ],
        named_group(names, groups, "version"@).unwrap(),
    )
}

/// Whether the four groups of a version took part in the match.
pub open spec fn has_triple_groups(
    names: Seq<Option<Seq<char>>>,
    groups: Seq<Option<Seq<char>>>,
) -> bool {
    &&& named_group(names, groups, "version"@) is Some
    &&& named_group(names, groups, "major"@) is Some
    &&& named_group(names, groups, "minor"@) is Some
    &&& named_group(names, groups, "patch"@) is Some
}

impl VersionTriple {
    /// Reads a triple from the groups `major`, `minor` and `patch` of a match,
    /// and hands back the text of the group `version` with it.
    pub fn from_caps(caps: &Captures) -> (r: Result<(VersionTriple, String), VersionTripleError>)
        requires
            has_triple_groups(caps.names.deep_view(), caps.groups.deep_view()),
        ensures
            match r {
                Ok((triple, version)) => triple_of_groups(
                    caps.names.deep_view(),
                    caps.groups.deep_view(),
                ) == Ok::<VersionTriple, VersionTripleErrorView>(triple) && Some(version@)
                    == caps.named("version"@),
                Err(e) => triple_of_groups(caps.names.deep_view(), caps.groups.deep_view()) == Err::<
                    VersionTriple,
                    VersionTripleErrorView,
                >(e@),
            },
    {
        let version = group_text(caps, "version");
        let mut parts: Vec<String> = Vec::new();
        parts.push(group_text(caps, "major"));
        parts.push(group_text(caps, "minor"));
        parts.push(group_text(caps, "patch"));
        match VersionTriple::from_split(&parts, version.as_str()) {
            Ok(triple) => Ok((triple, version)),
            Err(e) => Err(e),
        }
    }

}

/// Why the version of the compiler could not be told.
#[derive(Debug)]
pub enum RustVersionError {
    CommandFailed(RunAndSearchError),
    TripleInvalid(VersionTripleError),
    YearInvalid { date: String, source: ParseIntError },
    MonthInvalid { date: String, source: ParseIntError },
    DayInvalid { date: String, source: ParseIntError },
}

/// A `RustVersionError` with its texts as sequences of characters.
pub enum RustVersionErrorView {
    CommandFailed(RunAndSearchErrorView),
    TripleInvalid(VersionTripleErrorView),
    YearInvalid { date: Seq<char>, source: ParseIntError },
    MonthInvalid { date: Seq<char>, source: ParseIntError },
    DayInvalid { date: Seq<char>, source: ParseIntError },
}

impl View for RustVersionError {
    type V = RustVersionErrorView;

    open spec fn view(&self) -> RustVersionErrorView {
        match self {
            RustVersionError::CommandFailed(e) => RustVersionErrorView::CommandFailed(e@),
            RustVersionError::TripleInvalid(e) => RustVersionErrorView::TripleInvalid(e@),
            RustVersionError::YearInvalid { date, source } => {
                RustVersionErrorView::YearInvalid { date: date@, source: *source }
            },
            RustVersionError::MonthInvalid { date, source } => {
                RustVersionErrorView::MonthInvalid { date: date@, source: *source }
            },
            RustVersionError::DayInvalid { date, source } => {
                RustVersionErrorView::DayInvalid { date: date@, source: *source }
            },
        }
    }
}

impl RustVersionErrorView {
    /// The sentence that describes the error.
    pub open spec fn message(self) -> Seq<char> {
        match self {
            RustVersionErrorView::CommandFailed(e) => {
                "Failed to check rustc version: "@ + e.message()
            },
            RustVersionErrorView::TripleInvalid(e) => e.message(),
            RustVersionErrorView::YearInvalid { date, source } => {
                "Failed to parse rustc release year from "@ + debug_text(date) + ": "@
                    + source.message()
            },
            RustVersionErrorView::MonthInvalid { date, source } => {
                "Failed to parse rustc release month from "@ + debug_text(date) + ": "@
                    + source.message()
            },
            RustVersionErrorView::DayInvalid { date, source } => {
                "Failed to parse rustc release day from "@ + debug_text(date) + ": "@
                    + source.message()
            },
        }
    }
}

impl RustVersionError {
    pub fn report(&self) -> (r: crate::util::cli::Report)
        ensures
            r@ == (crate::util::cli::ReportView {
                label: crate::util::cli::Label::Error,
                msg: "Failed to check Rust version"@,
                details: self@.message(),
            }),
    {
        crate::util::cli::Report::error(
            "Failed to check Rust version".to_owned(),
            self.to_string(),
        )
    }

    pub fn to_string(&self) -> (r: String)
        ensures
            r@ == self@.message(),
    {
        match self {
            RustVersionError::CommandFailed(e) => {
                "Failed to check rustc version: ".to_owned().concat(e.to_string().as_str())
            },
            RustVersionError::TripleInvalid(e) => e.to_string(),
            RustVersionError::YearInvalid { date, source } => {
                "Failed to parse rustc release year from ".to_owned().concat(
                    debug_str(date.as_str()).as_str(),
                ).concat(": ").concat(source.to_string().as_str())
            },
            RustVersionError::MonthInvalid { date, source } => {
                "Failed to parse rustc release month from ".to_owned().concat(
                    debug_str(date.as_str()).as_str(),
                ).concat(": ").concat(source.to_string().as_str())
            },
            RustVersionError::DayInvalid { date, source } => {
                "Failed to parse rustc release day from ".to_owned().concat(
                    debug_str(date.as_str()).as_str(),
                ).concat(": ").concat(source.to_string().as_str())
            },
        }
    }
}

/// The channel of a compiler that is no stable release, such as `nightly`
/// or `beta` with the number of the candidate.
#[derive(Debug)]
pub struct RustVersionFlavor {
    pub flavor: String,
    pub candidate: Option<String>,
}

/// The commit and the day of a compiler's release.
#[derive(Debug)]
pub struct RustVersionDetails {
    pub hash: String,
    pub date: (u32, u32, u32),
}

/// The version of the compiler.
#[derive(Debug)]
pub struct RustVersion {
    pub triple: VersionTriple,
    pub flavor: Option<RustVersionFlavor>,
    /// Absent where the compiler was not installed with `rustup`.
    pub details: Option<RustVersionDetails>,
}

pub struct RustVersionFlavorView {
    pub flavor: Seq<char>,
    pub candidate: Option<Seq<char>>,
}

pub struct RustVersionDetailsView {
    pub hash: Seq<char>,
    pub date: (u32, u32, u32),
}

pub struct RustVersionView {
    pub triple: VersionTriple,
    pub flavor: Option<RustVersionFlavorView>,
    pub details: Option<RustVersionDetailsView>,
}

impl View for RustVersionFlavor {
    type V = RustVersionFlavorView;

    open spec fn view(&self) -> RustVersionFlavorView {
        RustVersionFlavorView { flavor: self.flavor@, candidate: self.candidate.deep_view() }
    }
}

impl View for RustVersionDetails {
    type V = RustVersionDetailsView;

    open spec fn view(&self) -> RustVersionDetailsView {
        RustVersionDetailsView { hash: self.hash@, date: self.date }
    }
}

impl View for RustVersion {
    type V = RustVersionView;

    open spec fn view(&self) -> RustVersionView {
        RustVersionView {
            triple: self.triple,
            flavor: crate::view::opt_view(self.flavor),
            details: crate::view::opt_view(self.details),
        }
    }
}

/// The last stable release with which iOS linking still worked.
pub open spec fn last_good_stable() -> VersionTriple {
    VersionTriple { major: 1, minor: 45, patch: 2 }
}

/// The release with which iOS linking works again.
pub open spec fn next_good_stable() -> VersionTriple {
    VersionTriple { major: 1, minor: 49, patch: 0 }
}

/// `a` is the same day as `b` or a later one; both are year, month, day.
pub open spec fn date_not_before(a: (u32, u32, u32), b: (u32, u32, u32)) -> bool {
    a.0 > b.0 || (a.0 == b.0 && (a.1 > b.1 || (a.1 == b.1 && a.2 >= b.2)))
}

/// The flavor behind a hyphen, with the candidate behind a dot.
pub open spec fn flavor_text(flavor: Option<RustVersionFlavorView>) -> Seq<char> {
    match flavor {
        Some(f) => "-"@ + f.flavor + match f.candidate {
            Some(c) => "."@ + c,
            None => Seq::<char>::empty(),
        },
        None => Seq::<char>::empty(),
    }
}

/// The hash and the day in brackets, behind a blank.
pub open spec fn details_text(details: Option<RustVersionDetailsView>) -> Seq<char> {
    match details {
        Some(d) => " ("@ + d.hash + " "@ + decimal(d.date.0 as nat) + "-"@ + decimal(
            d.date.1 as nat,
        ) + "-"@ + decimal(d.date.2 as nat) + ")"@,
        None => Seq::<char>::empty(),
    }
}

impl RustVersionView {
    /// The triple, the flavor behind a hyphen, the candidate behind a dot,
    /// and the details in brackets, each where there is one.
    pub open spec fn text(self) -> Seq<char> {
        self.triple.text() + flavor_text(self.flavor) + details_text(self.details)
    }

    /// Whether iOS apps link with this compiler on `host`. Elsewhere than
    /// on macOS every compiler will do. There, releases up to 1.45.2 are
    /// good, and releases from 1.49.0 on that are not older than the
    /// nightly of 2020-10-24; a release without a date counts as new
    /// enough.
    pub open spec fn valid(self, host: Host) -> bool {
        host != Host::MacOs || self.triple.not_after(last_good_stable()) || (
        next_good_stable().not_after(self.triple) && match self.details {
            Some(d) => date_not_before(d.date, (2020, 10, 24)),
            None => true,
        })
    }
}

/// The pattern of the line that `rustc --version` prints.
pub const RUSTC_VERSION_PATTERN: &'static str =
    r"rustc (?P<version>(?P<major>\d+)\.(?P<minor>\d+)\.(?P<patch>\d+)(-(?P<flavor>\w+)(.(?P<candidate>\d+))?)?)(?P<details> \((?P<hash>\w{9}) (?P<date>(?P<year>\d{4})-(?P<month>\d{2})-(?P<day>\d{2}))\))?";

/// Whether the groups that a version is read from took part in the match:
/// those of the triple, and with the group `details` those of the hash and
/// the date.
pub open spec fn has_version_groups(
    names: Seq<Option<Seq<char>>>,
    groups: Seq<Option<Seq<char>>>,
) -> bool {
    &&& has_triple_groups(names, groups)
    &&& named_group(names, groups, "details"@) is Some ==> {
        &&& named_group(names, groups, "hash"@) is Some
        &&& named_group(names, groups, "date"@) is Some
        &&& named_group(names, groups, "year"@) is Some
        &&& named_group(names, groups, "month"@) is Some
        &&& named_group(names, groups, "day"@) is Some
    }
}

/// The details that the groups of a match spell, if it has any.
pub open spec fn details_of_groups(
    names: Seq<Option<Seq<char>>>,
    groups: Seq<Option<Seq<char>>>,
) -> Result<Option<RustVersionDetailsView>, RustVersionErrorView> {
    if named_group(names, groups, "details"@) is None {
        Ok(None)
    } else {
        let date = named_group(names, groups, "date"@).unwrap();
        match parse_u32(named_group(names, groups, "year"@).unwrap()) {
            Err(source) => Err(RustVersionErrorView::YearInvalid { date, source }),
            Ok(year) => match parse_u32(named_group(names, groups, "month"@).unwrap()) {
                Err(source) => Err(RustVersionErrorView::MonthInvalid { date, source }),
                Ok(month) => match parse_u32(named_group(names, groups, "day"@).unwrap()) {
                    Err(source) => Err(RustVersionErrorView::DayInvalid { date, source }),
                    Ok(day) => Ok(
                        Some(
                            RustVersionDetailsView {
                                hash: named_group(names, groups, "hash"@).unwrap(),
                                date: (year, month, day),
                            },
                        ),
                    ),
                },
            },
        }
    }
}

/// The version that the groups of a match spell.
pub open spec fn version_of_groups(
    names: Seq<Option<Seq<char>>>,
    groups: Seq<Option<Seq<char>>>,
) -> Result<RustVersionView, RustVersionErrorView> {
    match triple_of_groups(names, groups) {
        Err(e) => Err(RustVersionErrorView::TripleInvalid(e)),
        Ok(triple) => match details_of_groups(names, groups) {
            Err(e) => Err(e),
            Ok(details) => Ok(
                RustVersionView {
                    triple,
                    flavor: match named_group(names, groups, "flavor"@) {
                        Some(flavor) => Some(
                            RustVersionFlavorView {
                                flavor,
                                candidate: named_group(names, groups, "candidate"@),
                            },
                        ),
                        None => None,
                    },
                    details,
                },
            ),
        },
    }
}

/// What reading the output of `rustc --version` gives, by what the search
/// for the pattern found in it.
pub open spec fn version_of_output(output: Seq<char>) -> Result<
    RustVersionView,
    RustVersionErrorView,
> {
    let pattern = RUSTC_VERSION_PATTERN@;
    match (pattern_names(pattern), first_match(pattern, output)) {
        (None, _) => Err(
            RustVersionErrorView::CommandFailed(RunAndSearchErrorView::PatternInvalid { pattern }),
        ),
        (Some(names), Some(groups)) => if has_version_groups(names, groups) {
            version_of_groups(names, groups)
        } else {
            Err(
                RustVersionErrorView::CommandFailed(
                    RunAndSearchErrorView::SearchFailed { command: "rustc --version"@, output },
                ),
            )
        },
        (Some(_), None) => Err(
            RustVersionErrorView::CommandFailed(
                RunAndSearchErrorView::SearchFailed { command: "rustc --version"@, output },
            ),
        ),
    }
}

fn flavor_string(flavor: &Option<RustVersionFlavor>) -> (r: String)
    ensures
        r@ == flavor_text(crate::view::opt_view(*flavor)),
{
    match flavor {
        Some(f) => {
            let head = "-".to_owned().concat(f.flavor.as_str());
            match &f.candidate {
                Some(c) => head.concat(".").concat(c.as_str()),
                None => {
                    head
                },
            }
        },
        None => String::new(),
    }
}

fn details_string(details: &Option<RustVersionDetails>) -> (r: String)
    ensures
        r@ == details_text(crate::view::opt_view(*details)),
{
    match details {
        Some(d) => " (".to_owned().concat(d.hash.as_str()).concat(" ").concat(
            u32_to_string(d.date.0).as_str(),
        ).concat("-").concat(u32_to_string(d.date.1).as_str()).concat("-").concat(
            u32_to_string(d.date.2).as_str(),
        ).concat(")"),
        None => String::new(),
    }
}

fn has_group(caps: &Captures, name: &str) -> (r: bool)
    ensures
        r == caps.named(name@) is Some,
{
    caps.name(name).is_some()
}

impl RustVersion {
    pub fn to_string(&self) -> (r: String)
        ensures
            r@ == self@.text(),
    {
        self.triple.to_string().concat(flavor_string(&self.flavor).as_str()).concat(
            details_string(&self.details).as_str(),
        )
    }

    /// Whether iOS apps link with this compiler on `host`.
    pub fn valid(&self, host: Host) -> (r: bool)
        ensures
            r == self@.valid(host),
    {
        if host.is_macos() {
            let last_good = VersionTriple::new(1, 45, 2);
            let next_good = VersionTriple::new(1, 49, 0);
            let old_good = self.triple.at_most(&last_good);
            let new_good = self.triple.at_least(&next_good) && match &self.details {
                Some(details) => {
                    let (year, month, day) = details.date;
                    year > 2020 || (year == 2020 && (month > 10 || (month == 10 && day >= 24)))
                },
                None => true,
            };
            old_good || new_good
        } else {
            true
        }
    }

    /// Reads the version from the groups of a match of the version
    /// pattern.
    pub fn from_captures(caps: &Captures) -> (r: Result<Self, RustVersionError>)
        requires
            has_version_groups(caps.names.deep_view(), caps.groups.deep_view()),
        ensures
            result_view(r) == version_of_groups(caps.names.deep_view(), caps.groups.deep_view()),
    {
        let triple = match VersionTriple::from_caps(caps) {
            Ok((triple, _)) => triple,
            Err(e) => {
                return Err(RustVersionError::TripleInvalid(e));
            },
        };
        let flavor = match caps.name("flavor") {
            Some(flavor) => Some(RustVersionFlavor { flavor, candidate: caps.name("candidate") }),
            None => None,
        };
        let details = if has_group(caps, "details") {
            let date = group_text(caps, "date");
            let hash = group_text(caps, "hash");
            let year = match parse_u32_str(group_text(caps, "year").as_str()) {
                Ok(n) => n,
                Err(source) => {
                    return Err(RustVersionError::YearInvalid { date, source });
                },
            };
            let month = match parse_u32_str(group_text(caps, "month").as_str()) {
                Ok(n) => n,
                Err(source) => {
                    return Err(RustVersionError::MonthInvalid { date, source });
                },
            };
            let day = match parse_u32_str(group_text(caps, "day").as_str()) {
                Ok(n) => n,
                Err(source) => {
                    return Err(RustVersionError::DayInvalid { date, source });
                },
            };
            Some(RustVersionDetails { hash, date: (year, month, day) })
        } else {
            None
        };
        Ok(Self { triple, flavor, details })
    }

    /// Reads the version from what `rustc --version` printed.
    pub fn check(output: &str) -> (r: Result<Self, RustVersionError>)
        ensures
            result_view(r) == version_of_output(output@),
    {
        let caps = match run_and_search("rustc --version", RUSTC_VERSION_PATTERN, output) {
            Ok(caps) => caps,
            Err(e) => {
                return Err(RustVersionError::CommandFailed(e));
            },
        };
        let complete = has_group(&caps, "version") && has_group(&caps, "major") && has_group(
            &caps,
            "minor",
        ) && has_group(&caps, "patch") && (!has_group(&caps, "details") || (has_group(
            &caps,
            "hash",
        ) && has_group(&caps, "date") && has_group(&caps, "year") && has_group(&caps, "month")
            && has_group(&caps, "day")));
        if !complete {
            return Err(
                RustVersionError::CommandFailed(
                    RunAndSearchError::SearchFailed {
                        command: "rustc --version".to_owned(),
                        output: output.to_owned(),
                    },
                ),
            );
        }
        Self::from_captures(&caps)
    }
}

} // verus!
