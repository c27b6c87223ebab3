//! The Apple part of an app's configuration.

pub mod raw;

pub use self::raw::{DetectError, PromptError, Raw, Team};

use super::version_number::{
    parse_number, VersionNumber, VersionNumberError, VersionNumberErrorView, VersionNumberView,
};
use crate::config::app::App;
use crate::text::{debug_str, debug_text};
use crate::util::cli::{Label, Report, ReportView};
use crate::util::disk::Disk;
use crate::util::path::{
    begins, joined, path_text, slashed, NormalizationError, PartView, PathParts,
};
use crate::util::version::{
    parse_double, parse_triple, VersionDoubleError, VersionDoubleErrorView, VersionTriple,
    VersionTripleError, VersionTripleErrorView,
};
use vstd::prelude::*;
use vstd::string::*;

verus! {

pub const DEFAULT_PROJECT_DIR: &'static str = "projects/apple";

/// The version that a bundle has where the file gives none.
pub open spec fn default_bundle_version() -> VersionNumberView {
    VersionNumberView { triple: VersionTriple { major: 1, minor: 0, patch: 0 }, extra: None }
}

/// A script that Xcode runs during a build.
#[derive(Debug)]
pub struct BuildScript {
    pub path: Option<String>,
    pub script: Option<String>,
    pub name: Option<String>,
    pub input_files: Option<Vec<String>>,
    pub output_files: Option<Vec<String>>,
    pub input_file_lists: Option<Vec<String>>,
    pub output_file_lists: Option<Vec<String>>,
    pub shell: Option<String>,
    pub show_env_vars: Option<bool>,
    pub run_only_when_installing: Option<bool>,
    pub based_on_dependency_analysis: Option<bool>,
    pub discovered_dependency_file: Option<String>,
}

/// What the package manifest says of the build for one Apple platform.
#[derive(Debug)]
pub struct Platform {
    pub features: Option<Vec<String>>,
    pub libraries: Option<Vec<String>>,
    pub frameworks: Option<Vec<String>>,
}

impl Default for Platform {
    fn default() -> (r: Self)
        ensures
            r.features is None,
            r.libraries is None,
            r.frameworks is None,
    {
        Self { features: None, libraries: None, frameworks: None }
    }
}

/// The list that an optional field holds; none where it holds none.
pub fn listed_or_empty(field: &Option<Vec<String>>) -> (r: &[String])
    ensures
        r@ == match *field {
            Some(list) => list@,
            None => Seq::<String>::empty(),
        },
{
    match field {
        Some(list) => list.as_slice(),
        None => {
            let empty: &[String] = &[];
            empty
        },
    }
}

impl Platform {
    /// Whether the default features are switched off: they are where the
    /// manifest lists features of its own.
    pub fn no_default_features(&self) -> (r: bool)
        ensures
            r == self.features is Some,
    {
        self.features.is_some()
    }

    pub fn features(&self) -> (r: Option<&[String]>)
        ensures
            match (r, self.features) {
                (Some(slice), Some(list)) => slice@ == list@,
                (None, None) => true,
                _ => false,
            },
    {
        match &self.features {
            Some(list) => Some(list.as_slice()),
            None => None,
        }
    }

    pub fn libraries(&self) -> (r: &[String])
        ensures
            r@ == match self.libraries {
                Some(list) => list@,
                None => Seq::<String>::empty(),
            },
    {
        listed_or_empty(&self.libraries)
    }

    pub fn frameworks(&self) -> (r: &[String])
        ensures
            r@ == match self.frameworks {
                Some(list) => list@,
                None => Seq::<String>::empty(),
            },
    {
        listed_or_empty(&self.frameworks)
    }

    /// Puts `features` at the end of the features; it becomes the only
    /// one where there were none.
    pub fn add_features(&mut self, features: String)
        ensures
            final(self).features matches Some(list) && list@ == match old(self).features {
                Some(before) => before@.push(features),
                None => seq![features],
            },
            final(self).libraries == old(self).libraries,
            final(self).frameworks == old(self).frameworks,
    {
        let mut list = match self.features.take() {
            Some(list) => list,
            None => Vec::new(),
        };
        list.push(features);
        self.features = Some(list);
    }
}

/// The value that a missing `supported` stands for.
pub fn default_true() -> (r: bool)
    ensures
        r,
{
    true
}

/// What the package manifest says of the Apple builds.
#[derive(Debug)]
pub struct Metadata {
    pub supported: bool,
    pub ios: Platform,
    pub macos: Platform,
}

impl Default for Metadata {
    fn default() -> (r: Self)
        ensures
            r.supported,
            r.ios.features is None,
            r.ios.libraries is None,
            r.ios.frameworks is None,
            r.macos.features is None,
            r.macos.libraries is None,
            r.macos.frameworks is None,
    {
        Self { supported: true, ios: Platform::default(), macos: Platform::default() }
    }
}

impl Metadata {
    pub fn supported(&self) -> (r: bool)
        ensures
            r == self.supported,
    {
        self.supported
    }

    pub fn ios(&self) -> (r: &Platform)
        ensures
            *r == self.ios,
    {
        &self.ios
    }

    pub fn macos(&self) -> (r: &Platform)
        ensures
            *r == self.macos,
    {
        &self.macos
    }

    /// Puts `features` at the end of the features of both platforms.
    pub fn add_features(&mut self, features: String)
        ensures
            final(self).supported == old(self).supported,
            final(self).ios.features matches Some(list) && list@ == match old(self).ios.features {
                Some(before) => before@.push(features),
                None => seq![features],
            },
            final(self).macos.features matches Some(list) && list@ == match old(
                self,
            ).macos.features {
                Some(before) => before@.push(features),
                None => seq![features],
            },
            final(self).ios.libraries == old(self).ios.libraries,
            final(self).ios.frameworks == old(self).ios.frameworks,
            final(self).macos.libraries == old(self).macos.libraries,
            final(self).macos.frameworks == old(self).macos.frameworks,
    {
        self.ios.add_features(features.clone());
        self.macos.add_features(features);
    }
}

/// Why a project directory will not do.
#[derive(Debug)]
pub enum ProjectDirInvalid {
    NormalizationFailed { project_dir: String, cause: NormalizationError },
    OutsideOfAppRoot { project_dir: String, root_dir: PathParts },
}

impl ProjectDirInvalid {
    /// The sentence that describes the error.
    pub open spec fn message(&self) -> Seq<char> {
        match self {
            ProjectDirInvalid::NormalizationFailed { project_dir, cause } => {
                "Xcode project dir "@ + debug_text(project_dir@) + " couldn't be normalized: "@
                    + cause.message()
            },
            ProjectDirInvalid::OutsideOfAppRoot { project_dir, root_dir } => {
                "Xcode project dir "@ + debug_text(project_dir@)
                    + " is outside of the app root dir "@ + debug_text(path_text(root_dir@))
            },
        }
    }

    pub fn to_string(&self) -> (r: String)
        ensures
            r@ == self.message(),
    {
        match self {
            ProjectDirInvalid::NormalizationFailed { project_dir, cause } => {
                "Xcode project dir ".to_owned().concat(
                    debug_str(project_dir.as_str()).as_str(),
                ).concat(" couldn't be normalized: ").concat(cause.to_string().as_str())
            },
            ProjectDirInvalid::OutsideOfAppRoot { project_dir, root_dir } => {
                "Xcode project dir ".to_owned().concat(
                    debug_str(project_dir.as_str()).as_str(),
                ).concat(" is outside of the app root dir ").concat(
                    debug_str(root_dir.to_string().as_str()).as_str(),
                )
            },
        }
    }
}

/// Why the Apple configuration will not do.
#[derive(Debug)]
pub enum Error {
    DevelopmentTeamMissing,
    DevelopmentTeamEmpty,
    ProjectDirInvalid(ProjectDirInvalid),
    BundleVersionInvalid(VersionTripleError),
    MacOsVersionInvalid(VersionDoubleError),
    IosVersionNumberInvalid(VersionNumberError),
    IosVersionNumberMismatch,
    InvalidVersionConfiguration,
}

impl Error {
    /// What the report says of the error.
    pub open spec fn details(&self) -> Seq<char> {
        match self {
            Error::DevelopmentTeamMissing => "`apple.development-team` must be specified"@,
            Error::DevelopmentTeamEmpty => "`apple.development-team` is empty"@,
            Error::ProjectDirInvalid(err) => "`apple.project-dir` invalid: "@ + err.message(),
            Error::BundleVersionInvalid(err) => "`apple.app-version` invalid: "@
                + err@.message(),
            Error::MacOsVersionInvalid(err) => "`apple.macos-version` invalid: "@
                + err@.message(),
            Error::IosVersionNumberInvalid(err) => "`apple.app-version` invalid: "@
                + err@.message(),
            Error::IosVersionNumberMismatch => {
                "`apple.app-version` short and long version number don't match"@
            },
            Error::InvalidVersionConfiguration => {
                "`apple.app-version` `bundle-version-short` cannot be specified without also specifying `bundle-version`"@
            },
        }
    }

    pub fn report(&self, msg: &str) -> (r: Report)
        ensures
            r@ == (ReportView { label: Label::Error, msg: msg@, details: self.details() }),
    {
        let details = match self {
            Error::DevelopmentTeamMissing => {
                "`apple.development-team` must be specified".to_owned()
            },
            Error::DevelopmentTeamEmpty => "`apple.development-team` is empty".to_owned(),
            Error::ProjectDirInvalid(err) => {
                "`apple.project-dir` invalid: ".to_owned().concat(err.to_string().as_str())
            },
            Error::BundleVersionInvalid(err) => {
                "`apple.app-version` invalid: ".to_owned().concat(err.to_string().as_str())
            },
            Error::MacOsVersionInvalid(err) => {
                "`apple.macos-version` invalid: ".to_owned().concat(err.to_string().as_str())
            },
            Error::IosVersionNumberInvalid(err) => {
                "`apple.app-version` invalid: ".to_owned().concat(err.to_string().as_str())
            },
            Error::IosVersionNumberMismatch => {
                "`apple.app-version` short and long version number don't match".to_owned()
            },
            Error::InvalidVersionConfiguration => {
                "`apple.app-version` `bundle-version-short` cannot be specified without also specifying `bundle-version`".to_owned()
            },
        };
        Report::error(msg.to_owned(), details)
    }
}

/// The two versions of a bundle, as far as the file gives them.
#[derive(Debug)]
pub struct VersionInfo {
    pub version_number: Option<VersionNumber>,
    pub short_version_number: Option<VersionTriple>,
}

/// What is wrong with the versions of a bundle.
pub enum VersionFault {
    IosVersionNumberInvalid(VersionNumberErrorView),
    BundleVersionInvalid(VersionTripleErrorView),
    InvalidVersionConfiguration,
    IosVersionNumberMismatch,
}

/// The versions that the two texts spell. The long version is read
/// first. A short version needs a long one beside it, and must be the
/// triple of the long one.
pub open spec fn version_info_of(
    version_string: Option<Seq<char>>,
    short_version_string: Option<Seq<char>>,
) -> Result<(Option<VersionNumberView>, Option<VersionTriple>), VersionFault> {
    let long = match version_string {
        Some(text) => match parse_number(text) {
            Ok(version) => Ok(Some(version)),
            Err(e) => Err(VersionFault::IosVersionNumberInvalid(e)),
        },
        None => Ok(None),
    };
    match long {
        Err(fault) => Err(fault),
        Ok(long) => match short_version_string {
            None => Ok((long, None)),
            Some(text) => match parse_triple(text) {
                Err(e) => Err(VersionFault::BundleVersionInvalid(e)),
                Ok(short) => match long {
                    None => Err(VersionFault::InvalidVersionConfiguration),
                    Some(version) => if version.triple != short {
                        Err(VersionFault::IosVersionNumberMismatch)
                    } else {
                        Ok((long, Some(short)))
                    },
                },
            },
        },
    }
}

/// The fault that an error stands for, if it is one of the versions.
pub open spec fn version_fault(error: Error) -> Option<VersionFault> {
    match error {
        Error::IosVersionNumberInvalid(e) => Some(VersionFault::IosVersionNumberInvalid(e@)),
        Error::BundleVersionInvalid(e) => Some(VersionFault::BundleVersionInvalid(e@)),
        Error::InvalidVersionConfiguration => Some(VersionFault::InvalidVersionConfiguration),
        Error::IosVersionNumberMismatch => Some(VersionFault::IosVersionNumberMismatch),
        _ => None,
    }
}

impl VersionInfo {
    pub open spec fn view(&self) -> (Option<VersionNumberView>, Option<VersionTriple>) {
        (crate::view::opt_view(self.version_number), self.short_version_number)
    }

    /// Whether `found` is what the texts spell.
    pub open spec fn agrees(
        found: Result<VersionInfo, Error>,
        expected: Result<(Option<VersionNumberView>, Option<VersionTriple>), VersionFault>,
    ) -> bool {
        match (found, expected) {
            (Ok(info), Ok(versions)) => info.view() == versions,
            (Err(error), Err(fault)) => version_fault(error) == Some(fault),
            _ => false,
        }
    }

    /// Reads the two versions of a bundle.
    pub fn from_raw(version_string: &Option<String>, short_version_string: &Option<String>) -> (r:
        Result<Self, Error>)
        ensures
            Self::agrees(
                r,
                version_info_of(
                    version_string.deep_view(),
                    short_version_string.deep_view(),
                ),
            ),
    {
        let version_number = match version_string {
            Some(text) => match VersionNumber::from_str(text.as_str()) {
                Ok(version) => Some(version),
                Err(e) => {
                    return Err(Error::IosVersionNumberInvalid(e));
                },
            },
            None => None,
        };
        let short_version_number = match short_version_string {
            Some(text) => match VersionTriple::from_str(text.as_str()) {
                Ok(short) => Some(short),
                Err(e) => {
                    return Err(Error::BundleVersionInvalid(e));
                },
            },
            None => None,
        };
        if short_version_number.is_some() && version_number.is_none() {
            return Err(Error::InvalidVersionConfiguration);
        }
        match (&version_number, short_version_number) {
            (Some(version), Some(short)) => {
                if version.triple != short {
                    return Err(Error::IosVersionNumberMismatch);
                }
            },
            _ => {},
        }
        Ok(Self { version_number, short_version_number })
    }
}

/// The Apple configuration of an app.
#[derive(Debug)]
pub struct Config {
    pub app: App,
    pub development_team: String,
    pub project_dir: String,
    pub bundle_version: VersionNumber,
    pub bundle_version_short: VersionTriple,
}

/// A normalised path without its error.
pub open spec fn normalized_view(normalized: Result<PathParts, NormalizationError>) -> Result<
    Seq<PartView>,
    (),
> {
    match normalized {
        Ok(path) => Ok(path@),
        Err(_) => Err(()),
    }
}

/// What becomes of the Apple table `raw`. The checks come in the order
/// table, team, project directory, versions.
pub open spec fn config_agrees(
    found: Result<Config, Error>,
    app: App,
    raw: Option<Raw>,
    normalized: Result<PathParts, NormalizationError>,
) -> bool {
    match raw {
        None => found matches Err(Error::DevelopmentTeamMissing),
        Some(raw) => if raw.development_team@.len() == 0 {
            found matches Err(Error::DevelopmentTeamEmpty)
        } else if raw.project_dir is Some && normalized is Err {
            found matches Err(
                Error::ProjectDirInvalid(
                    ProjectDirInvalid::NormalizationFailed { project_dir, cause },
                ),
            ) && project_dir@ == raw.project_dir->0@ && Err::<PathParts, NormalizationError>(cause)
                == normalized
        } else if raw.project_dir is Some && !begins(app.root_dir@, normalized->Ok_0@) {
            found matches Err(
                Error::ProjectDirInvalid(
                    ProjectDirInvalid::OutsideOfAppRoot { project_dir, root_dir },
                ),
            ) && project_dir@ == raw.project_dir->0@ && root_dir@ == app.root_dir@
        } else {
            match version_info_of(
                raw.bundle_version.deep_view(),
                raw.bundle_version_short.deep_view(),
            ) {
                Err(fault) => found matches Err(error) && version_fault(error) == Some(fault),
                Ok((long, short)) => {
                    &&& found matches Ok(config)
                    &&& config.app.same(app)
                    &&& config.development_team == raw.development_team
                    &&& config.project_dir@ == match raw.project_dir {
                        Some(dir) => dir@,
                        None => DEFAULT_PROJECT_DIR@,
                    }
                    &&& config.bundle_version@ == match long {
                        Some(version) => version,
                        None => default_bundle_version(),
                    }
                    &&& config.bundle_version_short == match short {
                        Some(short) => short,
                        None => config.bundle_version.triple,
                    }
                },
            }
        },
    }
}

impl Config {
    /// The path that the program has to make absolute before it calls
    /// `from_raw`: the project directory seen from the root directory. A
    /// configuration that names no project directory needs none.
    pub fn project_dir_to_check(app: &App, raw: &Option<Raw>) -> (r: Option<PathParts>)
        ensures
            match r {
                Some(path) => raw matches Some(raw) && raw.project_dir matches Some(dir) && path@
                    == joined(app.root_dir@, slashed(dir@)),
                None => raw is None || raw->0.project_dir is None,
            },
    {
        match raw {
            Some(raw) => match &raw.project_dir {
                Some(dir) => Some(app.root_dir.join_slashed(dir.as_str())),
                None => None,
            },
            None => None,
        }
    }

    /// Works the configuration out from what the file says, with the
    /// defaults for what it leaves out. `normalized` is the path of
    /// `project_dir_to_check` made absolute, or why that failed; it is
    /// looked at only where the file names a project directory.
    pub fn from_raw(
        app: App,
        raw: Option<Raw>,
        normalized: Result<PathParts, NormalizationError>,
    ) -> (r: Result<Self, Error>)
        ensures
            config_agrees(r, app, raw, normalized),
    {
        let raw = match raw {
            Some(raw) => raw,
            None => {
                return Err(Error::DevelopmentTeamMissing);
            },
        };
        if raw.development_team.as_str().is_empty() {
            return Err(Error::DevelopmentTeamEmpty);
        }
        let Raw { development_team, project_dir, bundle_version, bundle_version_short } = raw;
        let project_dir = match project_dir {
            Some(project_dir) => {
                let under_root = match normalized {
                    Ok(path) => crate::util::path::under_root(&path, &app.root_dir),
                    Err(cause) => {
                        return Err(
                            Error::ProjectDirInvalid(
                                ProjectDirInvalid::NormalizationFailed { project_dir, cause },
                            ),
                        );
                    },
                };
                if under_root {
                    project_dir
                } else {
                    return Err(
                        Error::ProjectDirInvalid(
                            ProjectDirInvalid::OutsideOfAppRoot {
                                project_dir,
                                root_dir: app.root_dir.copy(),
                            },
                        ),
                    );
                }
            },
            None => DEFAULT_PROJECT_DIR.to_owned(),
        };
        let info = match VersionInfo::from_raw(&bundle_version, &bundle_version_short) {
            Ok(info) => info,
            Err(e) => {
                return Err(e);
            },
        };
        let bundle_version = match info.version_number {
            Some(version) => version,
            None => VersionNumber::new_from_triple(VersionTriple::new(1, 0, 0)),
        };
        let bundle_version_short = match info.short_version_number {
            Some(short) => short,
            None => bundle_version.triple,
        };
        Ok(Self { app, development_team, project_dir, bundle_version, bundle_version_short })
    }

    pub fn app(&self) -> (r: &App)
        ensures
            *r == self.app,
    {
        &self.app
    }

    /// Where the Xcode project lies.
    pub open spec fn project_path(&self) -> Seq<PartView> {
        joined(self.app.root_dir@, slashed(self.project_dir@))
    }

    pub fn project_dir(&self) -> (r: PathParts)
        ensures
            r@ == self.project_path(),
    {
        self.app.prefix_path(&PathParts::from_slashed(self.project_dir.as_str()))
    }

    pub fn project_dir_exists(&self, disk: &Disk) -> (r: bool)
        ensures
            r == disk.dir_at(self.project_path()),
    {
        disk.is_dir(&self.project_dir())
    }

    /// The workspace beside the project, where the project has one.
    pub open spec fn root_workspace(&self) -> Seq<PartView> {
        joined(self.project_path(), slashed(self.app.name@ + ".xcworkspace/"@))
    }

    /// The workspace inside the project.
    pub open spec fn inner_workspace(&self) -> Seq<PartView> {
        joined(self.project_path(), slashed(self.app.name@ + ".xcodeproj/project.xcworkspace/"@))
    }

    /// The workspace to open: the one beside the project if `disk` has
    /// it, else the one inside the project.
    pub fn workspace_path(&self, disk: &Disk) -> (r: PathParts)
        ensures
            r@ == if disk.something_at(self.root_workspace()) {
                self.root_workspace()
            } else {
                self.inner_workspace()
            },
    {
        let root_workspace = self.project_dir().join_slashed(
            self.app.name().to_owned().concat(".xcworkspace/").as_str(),
        );
        if disk.has(&root_workspace) {
            root_workspace
        } else {
            self.project_dir().join_slashed(
                self.app.name().to_owned().concat(".xcodeproj/project.xcworkspace/").as_str(),
            )
        }
    }

    pub fn archive_dir(&self, suffix: &str) -> (r: PathParts)
        ensures
            r@ == joined(self.project_path(), slashed(suffix@)).push(PartView::Name("build"@)),
    {
        self.project_dir().join_slashed(suffix).join_name("build")
    }

    pub open spec fn export_path(&self) -> Seq<PartView> {
        self.project_path().push(PartView::Name("build"@))
    }

    pub fn export_dir(&self) -> (r: PathParts)
        ensures
            r@ == self.export_path(),
    {
        self.project_dir().join_name("build")
    }

    pub fn export_plist_path(&self) -> (r: PathParts)
        ensures
            r@ == self.project_path().push(PartView::Name("ExportOptions.plist"@)),
    {
        self.project_dir().join_name("ExportOptions.plist")
    }

    /// The archive of the app under the name `tail`.
    pub open spec fn ipa(&self, tail: Seq<char>) -> Seq<PartView> {
        joined(self.export_path(), slashed(tail + ".ipa"@))
    }

    /// The archive of the app: under the name of the scheme if `disk` has
    /// a file there, else under the name of the app if a file is there;
    /// else both places, which were looked at in vain.
    pub fn ipa_path(&self, disk: &Disk) -> (r: Result<PathParts, (PathParts, PathParts)>)
        ensures
            ({
                let old_style = self.ipa(self.app.name@ + "_iOS"@);
                let new_style = self.ipa(self.app.name@);
                match r {
                    Ok(path) => if disk.file_at(old_style) {
                        path@ == old_style
                    } else {
                        disk.file_at(new_style) && path@ == new_style
                    },
                    Err((a, b)) => !disk.file_at(old_style) && !disk.file_at(new_style) && a@
                        == old_style && b@ == new_style,
                }
            }),
    {
        let old = self.export_dir().join_slashed(self.scheme().concat(".ipa").as_str());
        let new = self.export_dir().join_slashed(
            self.app.name().to_owned().concat(".ipa").as_str(),
        );
        if disk.is_file(&old) {
            Ok(old)
        } else if disk.is_file(&new) {
            Ok(new)
        } else {
            Err((old, new))
        }
    }

    pub fn app_path(&self) -> (r: PathParts)
        ensures
            r@ == joined(self.export_path(), slashed("Payload/"@ + self.app.name@ + ".app"@)),
    {
        self.export_dir().join_slashed(
            "Payload/".to_owned().concat(self.app.name()).concat(".app").as_str(),
        )
    }

    /// The name of the scheme that builds the app for iOS.
    pub fn scheme(&self) -> (r: String)
        ensures
            r@ == self.app.name@ + "_iOS"@,
    {
        self.app.name().to_owned().concat("_iOS")
    }

    pub fn bundle_version(&self) -> (r: &VersionNumber)
        ensures
            *r == self.bundle_version,
    {
        &self.bundle_version
    }
}

} // verus!
