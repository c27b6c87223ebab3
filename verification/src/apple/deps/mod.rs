//! The tools that Apple builds need, and how they are installed.

pub mod update;

use self::update::{Outdated, OutdatedError};
use crate::opts::{NonInteractive, ReinstallDeps, SkipDevTools};
use crate::text::{debug_str, debug_text, lines, lines_of};
use crate::util::command::{Command, CommandView};
use crate::util::pattern::{captures, first_match, named_group, pattern_names};
use vstd::hash_set::StringHashSet;
use vstd::prelude::*;
use vstd::string::*;

verus! {

/// Who provides a package.
#[derive(Clone, Copy, Debug, PartialEq, Eq, Structural)]
pub enum PackageSource {
    Brew,
    BrewOrGem,
}

/// A package, and the command that shows that it is installed.
#[derive(Clone, Copy, Debug)]
pub struct PackageSpec {
    pub pkg_name: &'static str,
    pub bin_name: &'static str,
    pub package_source: PackageSource,
}

impl PackageSpec {
    pub fn brew(pkg_name: &'static str) -> (r: Self)
        ensures
            r.pkg_name == pkg_name,
            r.bin_name == pkg_name,
            r.package_source == PackageSource::Brew,
    {
        Self { pkg_name, bin_name: pkg_name, package_source: PackageSource::Brew }
    }

    pub fn brew_or_gem(pkg_name: &'static str) -> (r: Self)
        ensures
            r.pkg_name == pkg_name,
            r.bin_name == pkg_name,
            r.package_source == PackageSource::BrewOrGem,
    {
        Self { pkg_name, bin_name: pkg_name, package_source: PackageSource::BrewOrGem }
    }

    pub fn with_bin_name(self, bin_name: &'static str) -> (r: Self)
        ensures
            r.pkg_name == self.pkg_name,
            r.bin_name == bin_name,
            r.package_source == self.package_source,
    {
        Self { pkg_name: self.pkg_name, bin_name, package_source: self.package_source }
    }

    /// Whether the package is installed. `present` is what the search
    /// for its command gave, or why the search failed.
    pub fn found(&self, present: Result<bool, String>) -> (r: Result<bool, Error>)
        ensures
            match present {
                Ok(found) => r matches Ok(f) && f == found,
                Err(cause) => r matches Err(Error::PresenceCheckFailed { package, source })
                    && package == self.pkg_name && source == cause,
            },
    {
        match present {
            Ok(found) => Ok(found),
            Err(source) => Err(Error::PresenceCheckFailed { package: self.pkg_name, source }),
        }
    }
}

/// The packages that the tool installs.
pub fn packages() -> (r: Vec<PackageSpec>)
    ensures
        r.len() == 3,
        r[0].pkg_name@ == "xcodegen"@ && r[0].bin_name@ == "xcodegen"@ && r[0].package_source
            == PackageSource::Brew,
        r[1].pkg_name@ == "ios-deploy"@ && r[1].bin_name@ == "ios-deploy"@ && r[1].package_source
            == PackageSource::Brew,
        r[2].pkg_name@ == "cocoapods"@ && r[2].bin_name@ == "pod"@ && r[2].package_source
            == PackageSource::BrewOrGem,
{
    vec![
        PackageSpec::brew("xcodegen"),
        PackageSpec::brew("ios-deploy"),
        PackageSpec::brew_or_gem("cocoapods").with_bin_name("pod"),
    ]
}

/// Why a tool could not be installed.
#[derive(Debug)]
pub enum Error {
    OutdatedFailed(OutdatedError),
    PresenceCheckFailed { package: &'static str, source: String },
    InstallFailed { package: &'static str, source: String },
    PromptFailed(String),
    VersionLookupFailed(String),
    PackageNotUpdated { package: &'static str },
    GemListFailed(String),
    RegexMatchFailed,
    /// The pattern of the lines of `gem list` is no regular expression.
    PatternInvalid { pattern: String },
}

impl Error {
    /// The sentence that describes the error.
    pub open spec fn message(&self) -> Seq<char> {
        match self {
            Error::OutdatedFailed(err) => err.message(),
            Error::PresenceCheckFailed { package, source } => {
                "Failed to check for presence of `"@ + package@ + "`: "@ + source@
            },
            Error::InstallFailed { package, source } => {
                "Failed to install `"@ + package@ + "`: "@ + source@
            },
            Error::PromptFailed(err) => "Failed to prompt to install updates: "@ + err@,
            Error::VersionLookupFailed(err) => err@,
            Error::PackageNotUpdated { package } => "Failed to update package `"@ + package@
                + "`"@,
            Error::GemListFailed(err) => "Failed to list installed gems: "@ + err@,
            Error::RegexMatchFailed => "Regex match failed for output of `gem list`"@,
            Error::PatternInvalid { pattern } => debug_text(pattern@)
                + " is no regular expression"@,
        }
    }

    pub fn to_string(&self) -> (r: String)
        ensures
            r@ == self.message(),
    {
        match self {
            Error::OutdatedFailed(err) => err.to_string(),
            Error::PresenceCheckFailed { package, source } => {
                "Failed to check for presence of `".to_owned().concat(package).concat(
                    "`: ",
                ).concat(source.as_str())
            },
            Error::InstallFailed { package, source } => {
                "Failed to install `".to_owned().concat(package).concat("`: ").concat(
                    source.as_str(),
                )
            },
            Error::PromptFailed(err) => {
                "Failed to prompt to install updates: ".to_owned().concat(err.as_str())
            },
            Error::VersionLookupFailed(err) => err.clone(),
            Error::PackageNotUpdated { package } => {
                "Failed to update package `".to_owned().concat(package).concat("`")
            },
            Error::GemListFailed(err) => {
                "Failed to list installed gems: ".to_owned().concat(err.as_str())
            },
            Error::RegexMatchFailed => "Regex match failed for output of `gem list`".to_owned(),
            Error::PatternInvalid { pattern } => {
                debug_str(pattern.as_str()).concat(" is no regular expression")
            },
        }
    }
}

/// How a package gets onto the machine.
#[derive(Clone, Copy, Debug, PartialEq, Eq, Structural)]
pub enum Installation {
    /// `brew reinstall`, which installs and upgrades alike.
    BrewReinstall,
    /// By `brew` if `brew` has the package, else as a gem.
    UpdatePackage,
}

/// What is to be done for `package`: nothing where it was `found` and the
/// user does not ask for a fresh installation, else an installation by
/// its source.
pub fn install(package: &PackageSpec, reinstall_deps: ReinstallDeps, found: bool) -> (r: Option<
    Installation,
>)
    ensures
        r == if !found || reinstall_deps == ReinstallDeps::Yes {
            Some(
                match package.package_source {
                    PackageSource::Brew => Installation::BrewReinstall,
                    PackageSource::BrewOrGem => Installation::UpdatePackage,
                },
            )
        } else {
            None::<Installation>
        },
{
    if !found || reinstall_deps.yes() {
        Some(
            match package.package_source {
                PackageSource::Brew => Installation::BrewReinstall,
                PackageSource::BrewOrGem => Installation::UpdatePackage,
            },
        )
    } else {
        None
    }
}

/// What remains to be done once the packages are installed.
#[derive(Clone, Copy, Debug, PartialEq, Eq, Structural)]
pub struct Aftercare {
    /// Whether the user is asked if the outdated packages should be
    /// updated.
    pub offer_updates: bool,
    /// Whether the Xcode plugin is installed.
    pub install_dev_tools: bool,
}

/// What remains to be done for all packages together: updates are
/// offered where there are any and the user may be asked; the Xcode
/// plugin is installed unless the user wants the developer tools left
/// alone.
pub fn install_all(
    outdated: &Outdated,
    non_interactive: NonInteractive,
    skip_dev_tools: SkipDevTools,
) -> (r: Aftercare)
    ensures
        r.offer_updates == (outdated.packages.len() > 0 && non_interactive == NonInteractive::No),
        r.install_dev_tools == (skip_dev_tools == SkipDevTools::No),
{
    Aftercare {
        offer_updates: !outdated.is_empty() && non_interactive.no(),
        install_dev_tools: skip_dev_tools.no(),
    }
}

/// The command that tells, by its success, whether `brew` has `package`.
pub fn installed_with_brew(package: &str) -> (r: Command)
    ensures
        r@ == CommandView::impure("brew"@).with_arg("list"@).with_arg(package@),
{
    Command::impure("brew").with_arg("list").with_arg(package)
}

/// The command that installs `package` with `brew`, or upgrades it.
pub fn brew_reinstall(package: &str) -> (r: Command)
    ensures
        r@ == CommandView::impure("brew"@).with_arg("reinstall"@).with_arg(package@),
{
    Command::impure("brew").with_arg("reinstall").with_arg(package)
}

/// The pattern of a line of `gem list`: the name, then the releases in
/// brackets.
pub const GEM_LIST_PATTERN: &'static str = r"(?P<name>.+) \(.+\)";

/// The gems that are installed, as far as the tool has asked.
pub struct GemCache {
    pub set: StringHashSet,
}

/// The names that the first `upto` lines give: of each line that the
/// pattern matches, what its group `name` holds.
pub open spec fn gem_names(lines: Seq<Seq<char>>, names: Seq<Option<Seq<char>>>, upto: int) -> Set<
    Seq<char>,
>
    decreases upto,
{
    if upto <= 0 {
        Set::<Seq<char>>::empty()
    } else {
        let front = gem_names(lines, names, upto - 1);
        match first_match(GEM_LIST_PATTERN@, lines[upto - 1]) {
            Some(groups) => match named_group(names, groups, "name"@) {
                Some(name) => front.insert(name),
                None => front,
            },
            None => front,
        }
    }
}

/// Whether the pattern matches `line` without giving a name.
pub open spec fn nameless(line: Seq<char>, names: Seq<Option<Seq<char>>>) -> bool {
    match first_match(GEM_LIST_PATTERN@, line) {
        Some(groups) => named_group(names, groups, "name"@) is None,
        None => false,
    }
}

/// Whether a line among the first `upto` matches the pattern without
/// giving a name.
pub open spec fn gem_name_missing(lines: Seq<Seq<char>>, names: Seq<Option<Seq<char>>>, upto: int)
    -> bool {
    exists|i: int| 0 <= i < upto && nameless(#[trigger] lines[i], names)
}

/// Why a cache of gems cannot be filled.
pub enum GemFault {
    /// The pattern of the lines is no regular expression.
    PatternInvalid,
    /// A line matches the pattern without giving a name.
    RegexMatchFailed,
}

/// What a cache that holds `before` holds once it has been asked to fill
/// itself from `gems`, the output of `gem list`: what it held, if it held
/// something; else the names that the lines give.
pub open spec fn filled(before: Set<Seq<char>>, gems: Seq<char>) -> Result<Set<Seq<char>>, GemFault> {
    if !before.is_empty() {
        Ok(before)
    } else {
        match pattern_names(GEM_LIST_PATTERN@) {
            None => Err(GemFault::PatternInvalid),
            Some(names) => if gem_name_missing(lines(gems), names, lines(gems).len() as int) {
                Err(GemFault::RegexMatchFailed)
            } else {
                Ok(gem_names(lines(gems), names, lines(gems).len() as int))
            },
        }
    }
}

impl GemCache {
    pub fn new() -> (r: Self)
        ensures
            r.set@ == Set::<Seq<char>>::empty(),
    {
        Self { set: StringHashSet::new() }
    }

    /// Whether the list of gems has still to be asked for.
    pub fn uninitialized(&self) -> (r: bool)
        ensures
            r == self.set@.is_empty(),
    {
        self.set.is_empty()
    }

    /// Fills an empty cache from `gems`, the output of `gem list`; a
    /// cache that holds something stays as it is, and so does one that
    /// cannot be filled.
    pub fn initialize(&mut self, gems: &str) -> (r: Result<(), Error>)
        ensures
            match filled(old(self).set@, gems@) {
                Ok(set) => r is Ok && final(self).set@ == set,
                Err(fault) => final(self).set@ == old(self).set@ && match fault {
                    GemFault::PatternInvalid => r matches Err(Error::PatternInvalid { pattern })
                        && pattern@ == GEM_LIST_PATTERN@,
                    GemFault::RegexMatchFailed => r matches Err(Error::RegexMatchFailed),
                },
            },
    {
        if !self.set.is_empty() {
            return Ok(());
        }
        let gem_lines = lines_of(gems);
        let mut set = StringHashSet::new();
        let mut i: usize = 0;
        while i < gem_lines.len()
            invariant
                i <= gem_lines.len(),
                gem_lines.deep_view() == lines(gems@),
                *self == *old(self),
                old(self).set@.is_empty(),
                i > 0 ==> pattern_names(GEM_LIST_PATTERN@) is Some,
                pattern_names(GEM_LIST_PATTERN@) matches Some(names) ==> !gem_name_missing(
                    lines(gems@),
                    names,
                    i as int,
                ) && set@ == gem_names(lines(gems@), names, i as int),
            decreases gem_lines.len() - i,
        {
            let line = &gem_lines[i];
            proof {
                assert(gem_lines.deep_view()[i as int] == line@);
            }
            match captures(GEM_LIST_PATTERN, line.as_str()) {
                Err(e) => {
                    return Err(Error::PatternInvalid { pattern: e.pattern });
                },
                Ok(None) => {},
                Ok(Some(caps)) => match caps.name("name") {
                    Some(name) => {
                        set.insert(name);
                    },
                    None => {
                        return Err(Error::RegexMatchFailed);
                    },
                },
            }
            proof {
                let names = pattern_names(GEM_LIST_PATTERN@)->0;
                if gem_name_missing(lines(gems@), names, i + 1) {
                    let j = choose|j: int|
                        0 <= j < i + 1 && nameless(#[trigger] lines(gems@)[j], names);
                    if j < i {
                    }
                }
            }
            i += 1;
        }
        if gem_lines.len() == 0 {
            // No line was searched, so the pattern has not been tried yet.
            match captures(GEM_LIST_PATTERN, "") {
                Err(e) => {
                    return Err(Error::PatternInvalid { pattern: e.pattern });
                },
                Ok(_) => {},
            }
        }
        self.set = set;
        Ok(())
    }

    /// Whether the gem `package` is installed, by a cache that is filled
    /// from `gems`, the output of `gem list`, if it is empty.
    pub fn contains(&mut self, package: &str, gems: &str) -> (r: Result<bool, Error>)
        ensures
            match filled(old(self).set@, gems@) {
                Ok(set) => final(self).set@ == set && (r matches Ok(found) && found
                    == set.contains(package@)),
                Err(fault) => final(self).set@ == old(self).set@ && match fault {
                    GemFault::PatternInvalid => r matches Err(Error::PatternInvalid { pattern })
                        && pattern@ == GEM_LIST_PATTERN@,
                    GemFault::RegexMatchFailed => r matches Err(Error::RegexMatchFailed),
                },
            },
    {
        match self.initialize(gems) {
            Ok(()) => Ok(self.set.contains(package)),
            Err(e) => Err(e),
        }
    }

    pub fn contains_unchecked(&self, package: &str) -> (r: bool)
        ensures
            r == self.set@.contains(package@),
    {
        self.set.contains(package)
    }

    /// The command that brings the gem `package` up to date: an update
    /// where the gem is `installed`, else an installation, for which
    /// `sudo` is needed.
    pub fn reinstall(package: &str, installed: bool) -> (r: Command)
        ensures
            r@ == if installed {
                CommandView::impure("gem"@).with_arg("update"@).with_arg(package@)
            } else {
                CommandView::impure("sudo"@).with_arg("gem"@).with_arg("install"@).with_arg(
                    package@,
                )
            },
    {
        if installed {
            Command::impure("gem").with_arg("update").with_arg(package)
        } else {
            Command::impure("sudo").with_arg("gem").with_arg("install").with_arg(package)
        }
    }
}

/// The command that brings `package` up to date: by `brew` where `brew`
/// has it, else as a gem.
pub fn update_package(package: &str, installed_with_brew: bool, gem_installed: bool) -> (r: Command)
    ensures
        r@ == if installed_with_brew {
            CommandView::impure("brew"@).with_arg("reinstall"@).with_arg(package@)
        } else if gem_installed {
            CommandView::impure("gem"@).with_arg("update"@).with_arg(package@)
        } else {
            CommandView::impure("sudo"@).with_arg("gem"@).with_arg("install"@).with_arg(package@)
        },
{
    if installed_with_brew {
        brew_reinstall(package)
    } else {
        GemCache::reinstall(package, gem_installed)
    }
}

} // verus!
