//! The Android NDK: its version, and where its tools lie.

use crate::decimal::{decimal, parse_u32, parse_u32_str, u32_to_string, ParseIntError};
use crate::env::VarError;
use crate::os::Host;
use crate::text::{debug_str, debug_text, listed, split, split_str, with_char};
use crate::util::cli::{Label, Report, ReportView};
use crate::util::command::{Command, CommandView};
use crate::util::disk::Disk;
use crate::util::path::{
    Part,
    dedosed, joined, path_text, slashed, unwin_maybe, PartView, PathParts,
};
use crate::util::pattern::{line_captures, line_matches, pattern_names};
use crate::util::properties::{property, property_of};
use vstd::prelude::*;
use vstd::string::*;

verus! {

/// The name that the NDK gives to the machine it runs on.
pub open spec fn host_tag_text(host: Host) -> Seq<char> {
    match host {
        Host::MacOs => "darwin-x86_64"@,
        Host::Linux => "linux-x86_64"@,
        Host::Windows32 => "windows"@,
        Host::Windows64 => "windows-x86_64"@,
    }
}

pub fn host_tag(host: Host) -> (r: &'static str)
    ensures
        r@ == host_tag_text(host),
{
    match host {
        Host::MacOs => "darwin-x86_64",
        Host::Linux => "linux-x86_64",
        Host::Windows32 => "windows",
        Host::Windows64 => "windows-x86_64",
    }
}

/// The file name of `readelf` on `host`.
pub open spec fn readelf_text(host: Host) -> Seq<char> {
    if host.windows() {
        "readelf.exe"@
    } else {
        "readelf"@
    }
}

pub fn readelf(host: Host) -> (r: &'static str)
    ensures
        r@ == readelf_text(host),
{
    if host.is_windows() {
        "readelf.exe"
    } else {
        "readelf"
    }
}

#[derive(Clone, Copy, Debug, PartialEq, Eq, Structural)]
pub enum Compiler {
    Clang,
    Clangxx,
}

impl Compiler {
    /// The file name of the compiler on `host`.
    pub open spec fn text(self, host: Host) -> Seq<char> {
        match self {
            Compiler::Clang => if host.windows() {
                "clang.cmd"@
            } else {
                "clang"@
            },
            Compiler::Clangxx => if host.windows() {
                "clang++.cmd"@
            } else {
                "clang++"@
            },
        }
    }

    pub fn as_str(&self, host: Host) -> (r: &'static str)
        ensures
            r@ == self.text(host),
    {
        match self {
            Compiler::Clang => if host.is_windows() {
                "clang.cmd"
            } else {
                "clang"
            },
            Compiler::Clangxx => if host.is_windows() {
                "clang++.cmd"
            } else {
                "clang++"
            },
        }
    }
}

#[derive(Clone, Copy, Debug, PartialEq, Eq, Structural)]
pub enum Binutil {
    Ar,
    Ld,
}

impl Binutil {
    /// The file name of the tool on `host`.
    pub open spec fn text(self, host: Host) -> Seq<char> {
        match self {
            Binutil::Ar => if host.windows() {
                "ar.exe"@
            } else {
                "ar"@
            },
            Binutil::Ld => if host.windows() {
                "ld.exe"@
            } else {
                "ld"@
            },
        }
    }

    pub fn as_str(&self, host: Host) -> (r: &'static str)
        ensures
            r@ == self.text(host),
    {
        match self {
            Binutil::Ar => if host.is_windows() {
                "ar.exe"
            } else {
                "ar"
            },
            Binutil::Ld => if host.is_windows() {
                "ld.exe"
            } else {
                "ld"
            },
        }
    }
}

/// A tool of the NDK that is not where it should be.
#[derive(Debug)]
pub struct MissingToolError {
    pub name: &'static str,
    pub tried_path: PathParts,
}

/// A `MissingToolError` with its texts as sequences.
pub struct MissingToolErrorView {
    pub name: Seq<char>,
    pub tried_path: Seq<PartView>,
}

impl View for MissingToolError {
    type V = MissingToolErrorView;

    open spec fn view(&self) -> MissingToolErrorView {
        MissingToolErrorView { name: self.name@, tried_path: self.tried_path@ }
    }
}

impl MissingToolErrorView {
    /// The sentence that describes the error.
    pub open spec fn message(self) -> Seq<char> {
        "Missing tool `"@ + self.name + "`; tried at "@ + debug_text(path_text(self.tried_path))
            + "."@
    }
}

/// The path itself where `found` says that the tool is there, else the
/// error that names the tool and the path.
pub open spec fn checked(path: Seq<PartView>, name: Seq<char>, found: bool) -> Result<
    Seq<PartView>,
    MissingToolErrorView,
> {
    if found {
        Ok(path)
    } else {
        Err(MissingToolErrorView { name, tried_path: path })
    }
}

impl MissingToolError {
    pub fn to_string(&self) -> (r: String)
        ensures
            r@ == self@.message(),
    {
        "Missing tool `".to_owned().concat(self.name).concat("`; tried at ").concat(
            debug_str(self.tried_path.to_string().as_str()).as_str(),
        ).concat(".")
    }

    /// Hands `path` on if a file stands there.
    pub fn check_file(path: PathParts, name: &'static str, disk: &Disk) -> (r: Result<
        PathParts,
        Self,
    >)
        ensures
            crate::view::result_view(r) == checked(path@, name@, disk.file_at(path@)),
    {
        if disk.is_file(&path) {
            Ok(path)
        } else {
            Err(Self { name, tried_path: path })
        }
    }

    /// Hands `path` on if a directory stands there.
    pub fn check_dir(path: PathParts, name: &'static str, disk: &Disk) -> (r: Result<
        PathParts,
        Self,
    >)
        ensures
            crate::view::result_view(r) == checked(path@, name@, disk.dir_at(path@)),
    {
        if disk.is_dir(&path) {
            Ok(path)
        } else {
            Err(Self { name, tried_path: path })
        }
    }
}

/// The version of an NDK: a release number, and a letter counted from
/// zero.
#[derive(Clone, Copy, Debug, PartialEq, Eq, Structural, PartialOrd, Ord)]
pub struct Version {
    pub major: u32,
    pub minor: u32,
}

/// The oldest NDK that the tool works with.
pub open spec fn min_ndk_version() -> Version {
    Version { major: 19, minor: 0 }
}

impl Version {
    /// `self` comes before `other` or equals it.
    pub open spec fn not_after(self, other: Self) -> bool {
        self.major < other.major || (self.major == other.major && self.minor <= other.minor)
    }

    pub fn at_least(&self, other: &Self) -> (r: bool)
        ensures
            r == other.not_after(*self),
    {
        other.major < self.major || (other.major == self.major && other.minor <= self.minor)
    }

    /// Whether the version has a name: the alphabet has a letter for its
    /// minor number.
    pub open spec fn nameable(self) -> bool {
        self.minor < 26
    }

    /// The name of the release, such as `r21` or `r21e`: the letter is
    /// left out for minor number zero.
    pub open spec fn text(self) -> Seq<char> {
        if self.minor == 0 {
            "r"@ + decimal(self.major as nat)
        } else {
            ("r"@ + decimal(self.major as nat)).push((self.minor + 97) as u8 as char)
        }
    }

    pub fn to_string(&self) -> (r: String)
        requires
            self.nameable(),
        ensures
            r@ == self.text(),
    {
        let r = "r".to_owned().concat(u32_to_string(self.major).as_str());
        if self.minor != 0 {
            with_char(r, (self.minor as u8 + 97u8) as char)
        } else {
            r
        }
    }
}

/// Why the version of an NDK could not be told.
#[derive(Debug)]
pub enum VersionError {
    OpenFailed { path: PathParts, cause: String },
    ParseFailed { path: PathParts, cause: String },
    VersionMissing { path: PathParts },
    ComponentNotNumerical { path: PathParts, component: String, cause: ParseIntError },
    TooFewComponents { path: PathParts, version: String },
}

/// A `VersionError` with its texts as sequences.
pub enum VersionErrorView {
    OpenFailed { path: Seq<PartView>, cause: Seq<char> },
    ParseFailed { path: Seq<PartView>, cause: Seq<char> },
    VersionMissing { path: Seq<PartView> },
    ComponentNotNumerical { path: Seq<PartView>, component: Seq<char>, cause: ParseIntError },
    TooFewComponents { path: Seq<PartView>, version: Seq<char> },
}

impl View for VersionError {
    type V = VersionErrorView;

    open spec fn view(&self) -> VersionErrorView {
        match self {
            VersionError::OpenFailed { path, cause } => VersionErrorView::OpenFailed {
                path: path@,
                cause: cause@,
            },
            VersionError::ParseFailed { path, cause } => VersionErrorView::ParseFailed {
                path: path@,
                cause: cause@,
            },
            VersionError::VersionMissing { path } => VersionErrorView::VersionMissing {
                path: path@,
            },
            VersionError::ComponentNotNumerical { path, component, cause } => {
                VersionErrorView::ComponentNotNumerical {
                    path: path@,
                    component: component@,
                    cause: *cause,
                }
            },
            VersionError::TooFewComponents { path, version } => {
                VersionErrorView::TooFewComponents { path: path@, version: version@ }
            },
        }
    }
}

impl VersionErrorView {
    /// The sentence that describes the error. In the last sentence the
    /// path stands where the version is announced, and the version where
    /// the file is.
    pub open spec fn message(self) -> Seq<char> {
        match self {
            VersionErrorView::OpenFailed { path, cause } => {
                "Failed to open "@ + debug_text(path_text(path)) + ": "@ + cause
            },
            VersionErrorView::ParseFailed { path, cause } => {
                "Failed to parse "@ + debug_text(path_text(path)) + ": "@ + cause
            },
            VersionErrorView::VersionMissing { path } => {
                "No version number was present in "@ + debug_text(path_text(path)) + "."@
            },
            VersionErrorView::ComponentNotNumerical { path, component, cause } => {
                "Properties at "@ + debug_text(path_text(path))
                    + " contained a version component "@ + debug_text(component)
                    + " that wasn't a valid number: "@ + cause.message()
            },
            VersionErrorView::TooFewComponents { path, version } => {
                "Version "@ + debug_text(path_text(path)) + " in properties file "@ + debug_text(
                    version,
                ) + " didn't have as many components as expected."@
            },
        }
    }
}

impl VersionError {
    pub fn to_string(&self) -> (r: String)
        ensures
            r@ == self@.message(),
    {
        match self {
            VersionError::OpenFailed { path, cause } => {
                "Failed to open ".to_owned().concat(
                    debug_str(path.to_string().as_str()).as_str(),
                ).concat(": ").concat(cause.as_str())
            },
            VersionError::ParseFailed { path, cause } => {
                "Failed to parse ".to_owned().concat(
                    debug_str(path.to_string().as_str()).as_str(),
                ).concat(": ").concat(cause.as_str())
            },
            VersionError::VersionMissing { path } => {
                "No version number was present in ".to_owned().concat(
                    debug_str(path.to_string().as_str()).as_str(),
                ).concat(".")
            },
            VersionError::ComponentNotNumerical { path, component, cause } => {
                "Properties at ".to_owned().concat(
                    debug_str(path.to_string().as_str()).as_str(),
                ).concat(" contained a version component ").concat(
                    debug_str(component.as_str()).as_str(),
                ).concat(" that wasn't a valid number: ").concat(cause.to_string().as_str())
            },
            VersionError::TooFewComponents { path, version } => {
                "Version ".to_owned().concat(
                    debug_str(path.to_string().as_str()).as_str(),
                ).concat(" in properties file ").concat(
                    debug_str(version.as_str()).as_str(),
                ).concat(" didn't have as many components as expected.")
            },
        }
    }
}

/// The numbers that the first `count` components of `revision` spell, or
/// the first of them that spells none, with why.
pub open spec fn leading_numbers(parts: Seq<Seq<char>>, count: int) -> Result<
    Seq<u32>,
    (Seq<char>, ParseIntError),
>
    decreases count,
{
    if count <= 0 || parts.len() == 0 {
        Ok(Seq::<u32>::empty())
    } else if count > parts.len() {
        leading_numbers(parts, parts.len() as int)
    } else {
        match leading_numbers(parts, count - 1) {
            Err(e) => Err(e),
            Ok(front) => match parse_u32(parts[count - 1]) {
                Err(cause) => Err((parts[count - 1], cause)),
                Ok(n) => Ok(front.push(n)),
            },
        }
    }
}

/// Reads up to `count` numbers from the front of `revision`, a text of
/// components with dots between them. What follows them is not looked at.
pub fn revision_numbers(revision: &str, count: usize) -> (r: Result<
    Vec<u32>,
    (String, ParseIntError),
>)
    ensures
        match r {
            Ok(numbers) => leading_numbers(split(revision@, '.'), count as int) == Ok::<
                Seq<u32>,
                (Seq<char>, ParseIntError),
            >(numbers@) && numbers.len() <= count,
            Err((component, cause)) => leading_numbers(split(revision@, '.'), count as int)
                == Err::<Seq<u32>, (Seq<char>, ParseIntError)>((component@, cause)),
        },
{
    let parts = split_str(revision, '.');
    let limit = if count > parts.len() {
        parts.len()
    } else {
        count
    };
    let mut numbers: Vec<u32> = Vec::new();
    let mut i: usize = 0;
    while i < limit
        invariant
            i <= limit <= parts.len(),
            limit <= count,
            numbers.len() == i,
            parts.deep_view() == split(revision@, '.'),
            leading_numbers(parts.deep_view(), count as int) == leading_numbers(
                parts.deep_view(),
                limit as int,
            ),
            leading_numbers(parts.deep_view(), i as int) == Ok::<
                Seq<u32>,
                (Seq<char>, ParseIntError),
            >(numbers@),
        decreases limit - i,
    {
        match parse_u32_str(parts[i].as_str()) {
            Ok(n) => {
                numbers.push(n);
            },
            Err(cause) => {
                proof {
                    lemma_leading_error(parts.deep_view(), i + 1, limit as int);
                }
                return Err((parts[i].clone(), cause));
            },
        }
        i += 1;
    }
    Ok(numbers)
}

/// An error among the first `n` components is the error of any longer
/// front.
proof fn lemma_leading_error(parts: Seq<Seq<char>>, n: int, m: int)
    requires
        1 <= n <= m <= parts.len(),
        leading_numbers(parts, n) is Err,
    ensures
        leading_numbers(parts, m) == leading_numbers(parts, n),
    decreases m - n,
{
    if n < m {
        lemma_leading_error(parts, n, m - 1);
    }
}

/// The version that the revision of an NDK spells: its first two
/// components.
pub open spec fn version_of_revision(revision: Seq<char>, path: Seq<PartView>) -> Result<
    Version,
    VersionErrorView,
> {
    match leading_numbers(split(revision, '.'), 2) {
        Err((component, cause)) => Err(
            VersionErrorView::ComponentNotNumerical { path, component, cause },
        ),
        Ok(numbers) => if numbers.len() == 2 {
            Ok(Version { major: numbers[0], minor: numbers[1] })
        } else {
            Err(VersionErrorView::TooFewComponents { path, version: revision })
        },
    }
}

/// The version that a properties file tells: `contents` is the file at
/// `path`, or why it could not be opened. Of a file that is no properties
/// file the reader says why in its own words; here that text is left
/// empty.
pub open spec fn version_of_properties(contents: Result<Seq<u8>, Seq<char>>, path: Seq<PartView>)
    -> Result<Version, VersionErrorView> {
    match contents {
        Err(cause) => Err(VersionErrorView::OpenFailed { path, cause }),
        Ok(bytes) => match property_of(bytes, "Pkg.Revision"@) {
            None => Err(VersionErrorView::ParseFailed { path, cause: Seq::<char>::empty() }),
            Some(None) => Err(VersionErrorView::VersionMissing { path }),
            Some(Some(revision)) => version_of_revision(revision, path),
        },
    }
}

/// The contents of a file as a sequence of bytes, or why it could not be
/// opened.
pub open spec fn contents_view(contents: Result<Vec<u8>, String>) -> Result<Seq<u8>, Seq<char>> {
    match contents {
        Ok(bytes) => Ok(bytes@),
        Err(cause) => Err(cause@),
    }
}

/// `found` is the result `expected`, but for the words of the reader in
/// a `ParseFailed`.
pub open spec fn version_agrees(
    found: Result<Version, VersionError>,
    expected: Result<Version, VersionErrorView>,
) -> bool {
    match (found, expected) {
        (Ok(a), Ok(b)) => a == b,
        (Err(a), Err(VersionErrorView::ParseFailed { path, .. })) => a@ is ParseFailed
            && a@->ParseFailed_path == path,
        (Err(a), Err(b)) => a@ == b,
        _ => false,
    }
}

/// What becomes of an NDK whose home directory is there, by the version
/// that its properties file tells.
pub open spec fn ndk_checked(found: Result<Env, Error>, home: Seq<PartView>, version: Result<
    Version,
    VersionError,
>) -> bool {
    match version {
        Err(e) => found matches Err(Error::VersionLookupFailed(f)) && f@ == e@,
        Ok(version) => if min_ndk_version().not_after(version) {
            found matches Ok(env) && env.ndk_home@ == home
        } else {
            found matches Err(Error::VersionTooLow { you_have, you_need }) && you_have == version
                && you_need == min_ndk_version()
        },
    }
}

/// Reads the version of an NDK from its revision.
pub fn version_from_revision(revision: &str, path: &PathParts) -> (r: Result<Version, VersionError>)
    ensures
        crate::view::err_view(r) == version_of_revision(revision@, path@),
{
    match revision_numbers(revision, 2) {
        Err((component, cause)) => Err(
            VersionError::ComponentNotNumerical { path: path.copy(), component, cause },
        ),
        Ok(numbers) => if numbers.len() == 2 {
            Ok(Version { major: numbers[0], minor: numbers[1] })
        } else {
            Err(VersionError::TooFewComponents { path: path.copy(), version: revision.to_owned() })
        },
    }
}

/// Why the NDK cannot be used.
#[derive(Debug)]
pub enum Error {
    NdkHomeNotSet(VarError),
    NdkHomeNotADir,
    VersionLookupFailed(VersionError),
    VersionTooLow { you_have: Version, you_need: Version },
}

impl Error {
    /// Whether the sentence of the error can be written: the versions in
    /// it have names.
    pub open spec fn nameable(&self) -> bool {
        match self {
            Error::VersionTooLow { you_have, you_need } => you_have.nameable()
                && you_need.nameable(),
            _ => true,
        }
    }

    /// The sentence that describes the error.
    pub open spec fn message(&self) -> Seq<char> {
        match self {
            Error::NdkHomeNotSet(err) => {
                "Have you installed the NDK? The `NDK_HOME` environment variable isn't set, and is required: "@
                    + err.message()
            },
            Error::NdkHomeNotADir => {
                "Have you installed the NDK? The `NDK_HOME` environment variable is set, but doesn't point to an existing directory."@
            },
            Error::VersionLookupFailed(err) => {
                "Failed to lookup version of installed NDK: "@ + err@.message()
            },
            Error::VersionTooLow { you_have, you_need } => {
                "At least NDK "@ + you_need.text() + " is required (you currently have NDK "@
                    + you_have.text() + ")"@
            },
        }
    }

    pub fn to_string(&self) -> (r: String)
        requires
            self.nameable(),
        ensures
            r@ == self.message(),
    {
        match self {
            Error::NdkHomeNotSet(err) => {
                "Have you installed the NDK? The `NDK_HOME` environment variable isn't set, and is required: ".to_owned().concat(
                    err.to_string().as_str(),
                )
            },
            Error::NdkHomeNotADir => {
                "Have you installed the NDK? The `NDK_HOME` environment variable is set, but doesn't point to an existing directory.".to_owned()
            },
            Error::VersionLookupFailed(err) => {
                "Failed to lookup version of installed NDK: ".to_owned().concat(
                    err.to_string().as_str(),
                )
            },
            Error::VersionTooLow { you_have, you_need } => {
                "At least NDK ".to_owned().concat(you_need.to_string().as_str()).concat(
                    " is required (you currently have NDK ",
                ).concat(you_have.to_string().as_str()).concat(")")
            },
        }
    }

    pub fn report(&self) -> (r: Report)
        requires
            self.nameable(),
        ensures
            r@ == (ReportView {
                label: Label::Error,
                msg: "Failed to initialize NDK environment"@,
                details: self.message(),
            }),
    {
        Report::error("Failed to initialize NDK environment".to_owned(), self.to_string())
    }
}

/// Why the libraries that a binary needs could not be listed.
#[derive(Debug)]
pub enum RequiredLibsError {
    MissingTool(MissingToolError),
    /// `readelf` could not be run; the text says why.
    ReadElfFailed(String),
    /// What `readelf` printed is no UTF-8 text.
    InvalidUtf8(String),
    /// The pattern that finds the libraries is no regular expression.
    PatternInvalid(String),
}

impl RequiredLibsError {
    /// The sentence that describes the error.
    pub open spec fn message(&self) -> Seq<char> {
        match self {
            RequiredLibsError::MissingTool(err) => err@.message(),
            RequiredLibsError::ReadElfFailed(cause) => cause@,
            RequiredLibsError::InvalidUtf8(cause) => "`readelf` output contained invalid UTF-8: "@
                + cause@,
            RequiredLibsError::PatternInvalid(pattern) => debug_text(pattern@)
                + " is no regular expression"@,
        }
    }

    pub fn to_string(&self) -> (r: String)
        ensures
            r@ == self.message(),
    {
        match self {
            RequiredLibsError::MissingTool(err) => err.to_string(),
            RequiredLibsError::ReadElfFailed(cause) => cause.clone(),
            RequiredLibsError::InvalidUtf8(cause) => {
                "`readelf` output contained invalid UTF-8: ".to_owned().concat(cause.as_str())
            },
            RequiredLibsError::PatternInvalid(pattern) => {
                debug_str(pattern.as_str()).concat(" is no regular expression")
            },
        }
    }

    pub fn report(&self) -> (r: Report)
        ensures
            r@ == (ReportView {
                label: Label::Error,
                msg: "Failed to get list of required libs"@,
                details: self.message(),
            }),
    {
        Report::error("Failed to get list of required libs".to_owned(), self.to_string())
    }
}

/// An installed NDK.
#[derive(Debug)]
pub struct Env {
    pub ndk_home: PathParts,
}

/// The file in which an NDK tells its version.
pub open spec fn properties_path(ndk_home: Seq<PartView>) -> Seq<PartView> {
    ndk_home.push(PartView::Name("source.properties"@))
}

/// Where the prebuilt toolchain of `host` lies in an NDK.
pub open spec fn prebuilt_path(ndk_home: Seq<PartView>, host: Host) -> Seq<PartView> {
    dedosed(
        ndk_home + seq![
            PartView::Name("toolchains"@),
            PartView::Name("llvm"@),
            PartView::Name("prebuilt"@),
            PartView::Name(host_tag_text(host)),
        ],
    )
}

/// Where the tools of the toolchain lie.
pub open spec fn tools_path(ndk_home: Seq<PartView>, host: Host) -> Seq<PartView> {
    dedosed(prebuilt_path(ndk_home, host).push(PartView::Name("bin"@)))
}

/// The prebuilt toolchain, if `disk` has its directory.
pub open spec fn prebuilt_found(ndk_home: Seq<PartView>, host: Host, disk: &Disk) -> Result<
    Seq<PartView>,
    MissingToolErrorView,
> {
    checked(
        prebuilt_path(ndk_home, host),
        "prebuilt toolchain"@,
        disk.dir_at(prebuilt_path(ndk_home, host)),
    )
}

/// The directory of the tools, if `disk` has it and the toolchain's.
pub open spec fn tools_found(ndk_home: Seq<PartView>, host: Host, disk: &Disk) -> Result<
    Seq<PartView>,
    MissingToolErrorView,
> {
    match prebuilt_found(ndk_home, host, disk) {
        Err(e) => Err(e),
        Ok(_) => checked(
            tools_path(ndk_home, host),
            "tools"@,
            disk.dir_at(tools_path(ndk_home, host)),
        ),
    }
}

/// The tool called `file` among the tools, if `disk` has it; `name` is
/// what the error calls it.
pub open spec fn tool_found(
    ndk_home: Seq<PartView>,
    host: Host,
    disk: &Disk,
    file: Seq<char>,
    name: Seq<char>,
    dedos: bool,
) -> Result<Seq<PartView>, MissingToolErrorView> {
    match tools_found(ndk_home, host, disk) {
        Err(e) => Err(e),
        Ok(tools) => {
            let path = if dedos {
                dedosed(tools.push(PartView::Name(file)))
            } else {
                tools.push(PartView::Name(file))
            };
            checked(path, name, disk.file_at(path))
        },
    }
}

/// Where the shared C++ runtime for `abi` lies in an NDK.
pub open spec fn libcxx_path(ndk_home: Seq<PartView>, abi: Seq<char>) -> Seq<PartView> {
    ndk_home + seq![
        PartView::Name("sources"@),
        PartView::Name("cxx-stl"@),
        PartView::Name("llvm-libc++"@),
        PartView::Name("libs"@),
        PartView::Name(abi),
        PartView::Name("libc++_shared.so"@),
    ]
}

/// The pattern of the lines in which `readelf -d` names a needed library.
pub const NEEDED_PATTERN: &'static str = r"\(NEEDED\)\s+Shared library: \[(.+)\]";

/// The first groups of `matches`, each once, in the order in which they
/// first occur.
pub open spec fn distinct_libs(matches: Seq<Seq<Option<Seq<char>>>>) -> Seq<Seq<char>>
    decreases matches.len(),
{
    if matches.len() == 0 {
        Seq::<Seq<char>>::empty()
    } else {
        let front = distinct_libs(matches.drop_last());
        let last = matches.last();
        if last.len() > 1 && last[1] is Some && !front.contains(last[1].unwrap()) {
            front.push(last[1].unwrap())
        } else {
            front
        }
    }
}

impl Env {
    /// The NDK at `ndk_home`, the value of the variable `NDK_HOME`, where
    /// `disk` has a directory there and the properties file in it tells a
    /// version that is new enough. `properties` is what that file holds,
    /// or why it could not be opened.
    pub fn new(
        ndk_home: Result<PathParts, VarError>,
        disk: &Disk,
        properties: Result<Vec<u8>, String>,
    ) -> (r: Result<Self, Error>)
        ensures
            match ndk_home {
                Err(_) => r matches Err(Error::NdkHomeNotSet(_)),
                Ok(home) => if !disk.dir_at(home@) {
                    r matches Err(Error::NdkHomeNotADir)
                } else {
                    exists|version: Result<Version, VersionError>|
                        version_agrees(
                            version,
                            version_of_properties(
                                contents_view(properties),
                                properties_path(home@),
                            ),
                        ) && ndk_checked(r, home@, version)
                },
            },
    {
        let ndk_home = match ndk_home {
            Ok(home) => home,
            Err(e) => {
                return Err(Error::NdkHomeNotSet(e));
            },
        };
        if !disk.is_dir(&ndk_home) {
            return Err(Error::NdkHomeNotADir);
        }
        let env = Self { ndk_home };
        let ghost home = env.ndk_home@;
        let version = match env.version(properties) {
            Ok(version) => version,
            Err(e) => {
                let r = Err(Error::VersionLookupFailed(e));
                proof {
                    assert(ndk_checked(r, home, Err::<Version, VersionError>(e)));
                }
                return r;
            },
        };
        let min = Version { major: 19, minor: 0 };
        let r = if version.at_least(&min) {
            Ok(env)
        } else {
            Err(Error::VersionTooLow { you_have: version, you_need: min })
        };
        proof {
            assert(ndk_checked(r, home, Ok::<Version, VersionError>(version)));
        }
        r
    }

    pub fn home(&self) -> (r: &PathParts)
        ensures
            r@ == self.ndk_home@,
    {
        &self.ndk_home
    }

    /// The file in which the NDK tells its version.
    pub fn version_path(&self) -> (r: PathParts)
        ensures
            r@ == properties_path(self.ndk_home@),
    {
        self.ndk_home.join_name("source.properties")
    }

    /// The version of the NDK, read from `properties`: what its
    /// properties file holds, or why it could not be opened.
    pub fn version(&self, properties: Result<Vec<u8>, String>) -> (r: Result<Version, VersionError>)
        ensures
            version_agrees(
                r,
                version_of_properties(contents_view(properties), properties_path(self.ndk_home@)),
            ),
    {
        let path = self.version_path();
        let bytes = match properties {
            Ok(bytes) => bytes,
            Err(cause) => {
                return Err(VersionError::OpenFailed { path, cause });
            },
        };
        let revision = match property(&bytes, "Pkg.Revision") {
            Err(cause) => {
                return Err(VersionError::ParseFailed { path, cause });
            },
            Ok(None) => {
                return Err(VersionError::VersionMissing { path });
            },
            Ok(Some(revision)) => revision,
        };
        version_from_revision(revision.as_str(), &path)
    }

    /// Where the prebuilt toolchain should lie.
    pub fn prebuilt_dir_path(&self, host: Host) -> (r: PathParts)
        ensures
            r@ == prebuilt_path(self.ndk_home@, host),
    {
        let mut path = self.ndk_home.copy();
        path.push(Part::Name("toolchains".to_owned()));
        path.push(Part::Name("llvm".to_owned()));
        path.push(Part::Name("prebuilt".to_owned()));
        path.push(Part::Name(host_tag(host).to_owned()));
        unwin_maybe(&path)
    }

    /// The prebuilt toolchain.
    pub fn prebuilt_dir(&self, host: Host, disk: &Disk) -> (r: Result<PathParts, MissingToolError>)
        ensures
            crate::view::result_view(r) == prebuilt_found(self.ndk_home@, host, disk),
    {
        MissingToolError::check_dir(self.prebuilt_dir_path(host), "prebuilt toolchain", disk)
    }

    /// The directory of the tools.
    pub fn tool_dir(&self, host: Host, disk: &Disk) -> (r: Result<PathParts, MissingToolError>)
        ensures
            crate::view::result_view(r) == tools_found(self.ndk_home@, host, disk),
    {
        let prebuilt = match self.prebuilt_dir(host, disk) {
            Ok(path) => path,
            Err(e) => {
                return Err(e);
            },
        };
        MissingToolError::check_dir(unwin_maybe(&prebuilt.join_name("bin")), "tools", disk)
    }

    /// The compiler for `triple` and API level `min_api`.
    pub fn compiler_path(
        &self,
        compiler: Compiler,
        triple: &str,
        min_api: u32,
        host: Host,
        disk: &Disk,
    ) -> (r: Result<PathParts, MissingToolError>)
        ensures
            crate::view::result_view(r) == tool_found(
                self.ndk_home@,
                host,
                disk,
                triple@ + decimal(min_api as nat) + "-"@ + compiler.text(host),
                compiler.text(host),
                true,
            ),
    {
        let tools = match self.tool_dir(host, disk) {
            Ok(path) => path,
            Err(e) => {
                return Err(e);
            },
        };
        let file = triple.to_owned().concat(u32_to_string(min_api).as_str()).concat("-").concat(
            compiler.as_str(host),
        );
        MissingToolError::check_file(
            unwin_maybe(&tools.join_name(file.as_str())),
            compiler.as_str(host),
            disk,
        )
    }

    /// The binary tool for `triple`.
    pub fn binutil_path(&self, binutil: Binutil, triple: &str, host: Host, disk: &Disk) -> (r:
        Result<PathParts, MissingToolError>)
        ensures
            crate::view::result_view(r) == tool_found(
                self.ndk_home@,
                host,
                disk,
                triple@ + "-"@ + binutil.text(host),
                binutil.text(host),
                false,
            ),
    {
        let tools = match self.tool_dir(host, disk) {
            Ok(path) => path,
            Err(e) => {
                return Err(e);
            },
        };
        let file = triple.to_owned().concat("-").concat(binutil.as_str(host));
        MissingToolError::check_file(tools.join_name(file.as_str()), binutil.as_str(host), disk)
    }

    /// The shared C++ runtime for `abi`.
    pub fn libcxx_shared_path(&self, abi: &str, disk: &Disk) -> (r: Result<
        PathParts,
        MissingToolError,
    >)
        ensures
            crate::view::result_view(r) == checked(
                libcxx_path(self.ndk_home@, abi@),
                "libc++_shared.so"@,
                disk.file_at(libcxx_path(self.ndk_home@, abi@)),
            ),
    {
        let mut path = self.ndk_home.copy();
        path.push(Part::Name("sources".to_owned()));
        path.push(Part::Name("cxx-stl".to_owned()));
        path.push(Part::Name("llvm-libc++".to_owned()));
        path.push(Part::Name("libs".to_owned()));
        path.push(Part::Name(abi.to_owned()));
        path.push(Part::Name("libc++_shared.so".to_owned()));
        proof {
            assert(path@ =~= libcxx_path(self.ndk_home@, abi@));
        }
        MissingToolError::check_file(path, "libc++_shared.so", disk)
    }

    /// `readelf` for `triple`.
    pub fn readelf_path(&self, triple: &str, host: Host, disk: &Disk) -> (r: Result<
        PathParts,
        MissingToolError,
    >)
        ensures
            crate::view::result_view(r) == tool_found(
                self.ndk_home@,
                host,
                disk,
                triple@ + "-"@ + readelf_text(host),
                readelf_text(host),
                false,
            ),
    {
        let tools = match self.tool_dir(host, disk) {
            Ok(path) => path,
            Err(e) => {
                return Err(e);
            },
        };
        let file = triple.to_owned().concat("-").concat(readelf(host));
        MissingToolError::check_file(tools.join_name(file.as_str()), readelf(host), disk)
    }
}

impl Env {
    /// `readelf -d` on the binary at `elf`, with the `readelf` of the NDK
    /// for `triple`: the command that prints what the binary needs.
    pub fn readelf_command(&self, elf: &PathParts, triple: &str, host: Host, disk: &Disk) -> (r:
        Result<Command, RequiredLibsError>)
        ensures
            match tool_found(
                self.ndk_home@,
                host,
                disk,
                triple@ + "-"@ + readelf_text(host),
                readelf_text(host),
                false,
            ) {
                Ok(readelf) => r matches Ok(command) && command@ == CommandView::impure(
                    path_text(readelf),
                ).with_arg("-d"@).with_arg(path_text(elf@)),
                Err(missing) => r matches Err(RequiredLibsError::MissingTool(e)) && e@ == missing,
            },
    {
        match self.readelf_path(triple, host, disk) {
            Ok(readelf) => Ok(
                Command::impure(readelf.to_string().as_str()).with_arg("-d").with_arg(
                    elf.to_string().as_str(),
                ),
            ),
            Err(e) => Err(RequiredLibsError::MissingTool(e)),
        }
    }

    /// The libraries that a binary needs, read from what `readelf -d`
    /// printed of it: each once, in the order of the lines.
    pub fn required_libs(readelf_output: &str) -> (r: Result<Vec<String>, RequiredLibsError>)
        ensures
            match r {
                Ok(libs) => pattern_names(NEEDED_PATTERN@) is Some && libs.deep_view()
                    == distinct_libs(line_matches(NEEDED_PATTERN@, readelf_output@)),
                Err(e) => pattern_names(NEEDED_PATTERN@) is None && (
                e matches RequiredLibsError::PatternInvalid(p) && p@ == NEEDED_PATTERN@),
            },
    {
        let matches = match line_captures(NEEDED_PATTERN, readelf_output) {
            Ok(matches) => matches,
            Err(e) => {
                return Err(RequiredLibsError::PatternInvalid(e.pattern));
            },
        };
        Ok(libs_of_matches(&matches))
    }
}

/// The first groups of `matches`, each once.
pub fn libs_of_matches(matches: &Vec<Vec<Option<String>>>) -> (libs: Vec<String>)
    ensures
        libs.deep_view() == distinct_libs(matches.deep_view()),
{
    let mut libs: Vec<String> = Vec::new();
    let mut i: usize = 0;
    while i < matches.len()
        invariant
            i <= matches.len(),
            libs.deep_view() == distinct_libs(matches.deep_view().take(i as int)),
        decreases matches.len() - i,
    {
        proof {
            assert(matches.deep_view().take(i + 1).drop_last() =~= matches.deep_view().take(
                i as int,
            ));
        }
        let groups = &matches[i];
        if groups.len() > 1 {
            if let Some(lib) = &groups[1] {
                if !listed(&libs, lib.as_str()) {
                    libs.push(lib.clone());
                }
            }
        }
        i += 1;
    }
    proof {
        assert(matches.deep_view().take(matches.len() as int) =~= matches.deep_view());
    }
    libs
}

} // verus!
