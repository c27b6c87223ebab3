//! The packages that have a newer release than the installed one.

use super::{packages, GemCache};
use crate::text::{debug_str, debug_text, join, join_strs, lines, lines_of, listed};
use crate::util::pattern::{captures, first_match, pattern_names, Captures};
use crate::util::pattern::named_group;
use crate::util::rust_version::{get_string_for_group, CaptureGroupError};
use crate::view::result_view;
use vstd::prelude::*;
use vstd::string::*;

verus! {

/// Why the outdated packages could not be listed.
#[derive(Debug)]
pub enum OutdatedError {
    /// A command could not be run; the text says why.
    CommandFailed(String),
    /// The list that `brew` printed could not be read; the text says why.
    ParseFailed(String),
    RegexError(RegexError),
}

impl OutdatedError {
    /// The sentence that describes the error.
    pub open spec fn message(&self) -> Seq<char> {
        match self {
            OutdatedError::CommandFailed(err) => "Failed to check for outdated packages: "@
                + err@,
            OutdatedError::ParseFailed(err) => "Failed to parse outdated package list: "@ + err@,
            OutdatedError::RegexError(err) => err.message(),
        }
    }

    pub fn to_string(&self) -> (r: String)
        ensures
            r@ == self.message(),
    {
        match self {
            OutdatedError::CommandFailed(err) => {
                "Failed to check for outdated packages: ".to_owned().concat(err.as_str())
            },
            OutdatedError::ParseFailed(err) => {
                "Failed to parse outdated package list: ".to_owned().concat(err.as_str())
            },
            OutdatedError::RegexError(err) => err.to_string(),
        }
    }
}

/// A package with the releases that are installed and the newest one.
#[derive(Debug)]
pub struct Formula {
    pub name: String,
    pub installed_versions: Vec<String>,
    pub current_version: String,
}

/// A `Formula` with its texts as sequences of characters.
pub struct FormulaView {
    pub name: Seq<char>,
    pub installed_versions: Seq<Seq<char>>,
    pub current_version: Seq<char>,
}

impl View for Formula {
    type V = FormulaView;

    open spec fn view(&self) -> FormulaView {
        FormulaView {
            name: self.name@,
            installed_versions: self.installed_versions.deep_view(),
            current_version: self.current_version@,
        }
    }
}

/// The views of a list of formulae.
pub open spec fn formulae_view(formulae: Seq<Formula>) -> Seq<FormulaView> {
    formulae.map_values(|f: Formula| f@)
}

impl Formula {
    /// The line that tells the user of the newer release.
    pub open spec fn notice(&self) -> Seq<char> {
        if self.installed_versions.len() == 1 {
            "  - `"@ + self.name@ + "` is at "@ + self.installed_versions[0]@
                + "; latest version is "@ + self.current_version@
        } else {
            "  - `"@ + self.name@ + "` is at ["@ + join(
                self.installed_versions.deep_view(),
                ", "@,
            ) + "]; latest version is "@ + self.current_version@
        }
    }

    pub fn print_notice(&self) -> (r: String)
        ensures
            r@ == self.notice(),
    {
        if self.installed_versions.len() == 1 {
            "  - `".to_owned().concat(self.name.as_str()).concat("` is at ").concat(
                self.installed_versions[0].as_str(),
            ).concat("; latest version is ").concat(self.current_version.as_str())
        } else {
            "  - `".to_owned().concat(self.name.as_str()).concat("` is at [").concat(
                join_strs(&self.installed_versions, ", ").as_str(),
            ).concat("]; latest version is ").concat(self.current_version.as_str())
        }
    }
}

/// Why a line of `gem outdated` could not be read.
#[derive(Debug)]
pub enum RegexError {
    SearchFailed { revision: String },
    InvalidCaptureGroup(CaptureGroupError),
    /// The pattern of the lines is no regular expression.
    PatternInvalid { pattern: String },
}

/// A `RegexError` with its texts as sequences of characters.
pub enum RegexErrorView {
    SearchFailed { revision: Seq<char> },
    InvalidCaptureGroup { group: Seq<char>, string: Seq<char> },
    PatternInvalid { pattern: Seq<char> },
}

impl View for RegexError {
    type V = RegexErrorView;

    open spec fn view(&self) -> RegexErrorView {
        match self {
            RegexError::SearchFailed { revision } => RegexErrorView::SearchFailed {
                revision: revision@,
            },
            RegexError::InvalidCaptureGroup(
                CaptureGroupError::InvalidCaptureGroup { group, string },
            ) => RegexErrorView::InvalidCaptureGroup { group: group@, string: string@ },
            RegexError::PatternInvalid { pattern } => RegexErrorView::PatternInvalid {
                pattern: pattern@,
            },
        }
    }
}

impl RegexError {
    /// The sentence that describes the error.
    pub open spec fn message(&self) -> Seq<char> {
        match self {
            RegexError::SearchFailed { revision } => "Failed to match regex in string "@
                + debug_text(revision@),
            RegexError::InvalidCaptureGroup(err) => err.message(),
            RegexError::PatternInvalid { pattern } => debug_text(pattern@)
                + " is no regular expression"@,
        }
    }

    pub fn to_string(&self) -> (r: String)
        ensures
            r@ == self.message(),
    {
        match self {
            RegexError::SearchFailed { revision } => {
                "Failed to match regex in string ".to_owned().concat(
                    debug_str(revision.as_str()).as_str(),
                )
            },
            RegexError::InvalidCaptureGroup(err) => err.to_string(),
            RegexError::PatternInvalid { pattern } => {
                debug_str(pattern.as_str()).concat(" is no regular expression")
            },
        }
    }
}

/// The pattern of a line of `gem outdated`: the name, then the installed
/// and the latest release in brackets.
pub const GEM_OUTDATED_PATTERN: &'static str =
    r"(?P<name>.+) \((?P<installed_version>.+) < (?P<latest_version>.+)\)";

/// The formula that the groups of a matched line give. The releases are
/// looked up under the names `installed_version` and `current_version`;
/// the first group that is wanting is the error.
pub open spec fn formula_of_groups(
    names: Seq<Option<Seq<char>>>,
    groups: Seq<Option<Seq<char>>>,
    revision: Seq<char>,
) -> Result<FormulaView, RegexErrorView> {
    match named_group(names, groups, "name"@) {
        None => Err(RegexErrorView::InvalidCaptureGroup { group: "name"@, string: revision }),
        Some(name) => match named_group(names, groups, "installed_version"@) {
            None => Err(
                RegexErrorView::InvalidCaptureGroup {
                    group: "installed_version"@,
                    string: revision,
                },
            ),
            Some(installed) => match named_group(names, groups, "current_version"@) {
                None => Err(
                    RegexErrorView::InvalidCaptureGroup {
                        group: "current_version"@,
                        string: revision,
                    },
                ),
                Some(current) => Ok(
                    FormulaView {
                        name,
                        installed_versions: seq![installed],
                        current_version: current,
                    },
                ),
            },
        },
    }
}

/// The formula that a line of `gem outdated` gives, by what the search
/// for the pattern found in it.
pub open spec fn formula_of_line(revision: Seq<char>) -> Result<FormulaView, RegexErrorView> {
    match (pattern_names(GEM_OUTDATED_PATTERN@), first_match(GEM_OUTDATED_PATTERN@, revision)) {
        (None, _) => Err(RegexErrorView::PatternInvalid { pattern: GEM_OUTDATED_PATTERN@ }),
        (Some(_), None) => Err(RegexErrorView::SearchFailed { revision }),
        (Some(names), Some(groups)) => formula_of_groups(names, groups, revision),
    }
}

/// Reads a formula from the groups of a matched line.
pub fn formula_from_captures(caps: &Captures, revision: &str) -> (r: Result<Formula, RegexError>)
    ensures
        result_view(r) == formula_of_groups(
            caps.names.deep_view(),
            caps.groups.deep_view(),
            revision@,
        ),
{
    let name = match get_string_for_group(caps, "name", revision) {
        Ok(name) => name,
        Err(e) => {
            return Err(RegexError::InvalidCaptureGroup(e));
        },
    };
    let installed_version = match get_string_for_group(caps, "installed_version", revision) {
        Ok(version) => version,
        Err(e) => {
            return Err(RegexError::InvalidCaptureGroup(e));
        },
    };
    let current_version = match get_string_for_group(caps, "current_version", revision) {
        Ok(version) => version,
        Err(e) => {
            return Err(RegexError::InvalidCaptureGroup(e));
        },
    };
    let installed_versions = vec![installed_version];
    proof {
        assert(installed_versions.deep_view() =~= seq![installed_versions[0]@]);
    }
    Ok(Formula { name, installed_versions, current_version })
}

/// Reads one line of `gem outdated`.
pub fn parse_gem_outdated_string(revision: &str) -> (r: Result<Formula, RegexError>)
    ensures
        result_view(r) == formula_of_line(revision@),
{
    let caps = match captures(GEM_OUTDATED_PATTERN, revision) {
        Ok(Some(caps)) => caps,
        Ok(None) => {
            return Err(RegexError::SearchFailed { revision: revision.to_owned() });
        },
        Err(e) => {
            return Err(RegexError::PatternInvalid { pattern: e.pattern });
        },
    };
    formula_from_captures(&caps, revision)
}

/// The formulae that the first `upto` lines of `gem outdated` give: one
/// for each line that is not empty and that `gems`, the cache of gems,
/// holds. The first such line that cannot be read is the error.
pub open spec fn gem_formulae(lines: Seq<Seq<char>>, gems: Set<Seq<char>>, upto: int) -> Result<
    Seq<FormulaView>,
    RegexErrorView,
>
    decreases upto,
{
    if upto <= 0 {
        Ok(Seq::<FormulaView>::empty())
    } else {
        match gem_formulae(lines, gems, upto - 1) {
            Err(e) => Err(e),
            Ok(front) => if lines[upto - 1].len() > 0 && gems.contains(lines[upto - 1]) {
                match formula_of_line(lines[upto - 1]) {
                    Ok(formula) => Ok(front.push(formula)),
                    Err(e) => Err(e),
                }
            } else {
                Ok(front)
            },
        }
    }
}

/// An error among the first `n` lines is the error of all the lines.
proof fn lemma_gem_error(lines: Seq<Seq<char>>, gems: Set<Seq<char>>, n: int, m: int)
    requires
        0 <= n <= m,
        gem_formulae(lines, gems, n) is Err,
    ensures
        gem_formulae(lines, gems, m) == gem_formulae(lines, gems, n),
    decreases m - n,
{
    if n < m {
        lemma_gem_error(lines, gems, n, m - 1);
    }
}

/// The packages of the tool that have a newer release.
#[derive(Debug)]
pub struct Outdated {
    pub packages: Vec<Formula>,
}

/// Whether `name` is the name of a package that the tool installs.
pub open spec fn known_package(name: Seq<char>) -> bool {
    name == "xcodegen"@ || name == "ios-deploy"@ || name == "cocoapods"@
}

impl Outdated {
    /// Whether every package in the list is one that the tool installs.
    pub open spec fn all_known(&self) -> bool {
        forall|i: int| 0 <= i < self.packages.len() ==> known_package(self.packages[i].name@)
    }

    /// The formulae of `brew` that are packages of the tool, in their
    /// order.
    pub fn known_formulae(formulae: Vec<Formula>) -> (r: Vec<Formula>)
        ensures
            r@ == formulae@.filter(|f: Formula| known_package(f.name@)),
    {
        let mut kept: Vec<Formula> = Vec::new();
        let mut formulae = formulae;
        let ghost all = formulae@;
        let ghost keep = |f: Formula| known_package(f.name@);
        while formulae.len() > 0
            invariant
                keep == |f: Formula| known_package(f.name@),
                formulae.len() <= all.len(),
                formulae@ == all.skip(all.len() - formulae.len()),
                kept@ == all.take(all.len() - formulae.len()).filter(keep),
            decreases formulae.len(),
        {
            let ghost done = all.len() - formulae.len();
            let next = formulae.remove(0);
            proof {
                assert(all.take(done + 1).drop_last() =~= all.take(done));
                reveal(Seq::filter);
            }
            let known = next.name.as_str().eq("xcodegen") || next.name.as_str().eq("ios-deploy")
                || next.name.as_str().eq("cocoapods");
            if known {
                kept.push(next);
            }
        }
        kept
    }

    /// The list of what is outdated: the formulae that `brew` reported
    /// for packages of the tool, then a formula for each line of
    /// `gem_outdated`, the output of `gem outdated`, that is not empty and
    /// that the cache of gems holds. The first such line that cannot be
    /// read is the error.
    pub fn load(formulae: Vec<Formula>, gem_outdated: &str, gem_cache: &GemCache) -> (r: Result<
        Self,
        OutdatedError,
    >)
        ensures
            match gem_formulae(
                lines(gem_outdated@),
                gem_cache.set@,
                lines(gem_outdated@).len() as int,
            ) {
                Ok(gems) => r matches Ok(outdated) && formulae_view(outdated.packages@)
                    == formulae_view(formulae@.filter(|f: Formula| known_package(f.name@)))
                    + gems,
                Err(e) => r matches Err(OutdatedError::RegexError(f)) && f@ == e,
            },
    {
        let mut packages = Self::known_formulae(formulae);
        let ghost brew = formulae_view(packages@);
        let gem_lines = lines_of(gem_outdated);
        let ghost all = lines(gem_outdated@);
        let mut i: usize = 0;
        while i < gem_lines.len()
            invariant
                i <= gem_lines.len(),
                all == lines(gem_outdated@),
                gem_lines.deep_view() == all,
                gem_formulae(all, gem_cache.set@, i as int) matches Ok(gems) && formulae_view(
                    packages@,
                ) == brew + gems,
            decreases gem_lines.len() - i,
        {
            let line = &gem_lines[i];
            if !line.as_str().is_empty() && gem_cache.contains_unchecked(line.as_str()) {
                match parse_gem_outdated_string(line.as_str()) {
                    Ok(formula) => {
                        let ghost before = formulae_view(packages@);
                        packages.push(formula);
                        proof {
                            assert(formulae_view(packages@) =~= before.push(formula@));
                        }
                    },
                    Err(e) => {
                        proof {
                            lemma_gem_error(all, gem_cache.set@, i + 1, all.len() as int);
                        }
                        return Err(OutdatedError::RegexError(e));
                    },
                }
            }
            i += 1;
        }
        Ok(Self { packages })
    }

    /// The names of the outdated packages, as the tool knows them.
    pub fn iter(&self) -> (r: Vec<&'static str>)
        requires
            self.all_known(),
        ensures
            r.len() == self.packages.len(),
            forall|i: int| 0 <= i < r.len() ==> r[i]@ == self.packages[i].name@,
    {
        let mut names: Vec<&'static str> = Vec::new();
        let mut i: usize = 0;
        while i < self.packages.len()
            invariant
                i <= self.packages.len(),
                self.all_known(),
                names.len() == i,
                forall|j: int| 0 <= j < i ==> names[j]@ == self.packages[j].name@,
            decreases self.packages.len() - i,
        {
            let name = self.packages[i].name.as_str();
            let known: &'static str = if name.eq("xcodegen") {
                "xcodegen"
            } else if name.eq("ios-deploy") {
                "ios-deploy"
            } else {
                "cocoapods"
            };
            names.push(known);
            i += 1;
        }
        names
    }

    pub fn is_empty(&self) -> (r: bool)
        ensures
            r == (self.packages.len() == 0),
    {
        self.packages.len() == 0
    }

    /// What the user is told: a headline and a line for each package, or
    /// that nothing is outdated.
    pub fn print_notice(&self) -> (r: Vec<String>)
        ensures
            if self.packages.len() == 0 {
                r.deep_view() == seq!["Apple dependencies are up to date"@]
            } else {
                r.len() == self.packages.len() + 1 && r[0]@ == "Outdated dependencies:"@
                    && forall|i: int|
                    0 <= i < self.packages.len() ==> r[i + 1]@ == self.packages[i].notice()
            },
    {
        let mut out: Vec<String> = Vec::new();
        if !self.is_empty() {
            out.push("Outdated dependencies:".to_owned());
            let mut i: usize = 0;
            while i < self.packages.len()
                invariant
                    i <= self.packages.len(),
                    out.len() == i + 1,
                    out[0]@ == "Outdated dependencies:"@,
                    forall|j: int| 0 <= j < i ==> out[j + 1]@ == self.packages[j].notice(),
                decreases self.packages.len() - i,
            {
                out.push(self.packages[i].print_notice());
                i += 1;
            }
        } else {
            out.push("Apple dependencies are up to date".to_owned());
        }
        out
    }
}

} // verus!
