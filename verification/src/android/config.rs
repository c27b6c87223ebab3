//! The Android part of an app's configuration.

use crate::config::app::App;
use crate::text::{contains_char, debug_str, debug_text};
use crate::util::case::snake_case;
use crate::util::cli::{Label, Report, ReportView};
use crate::util::disk::Disk;
use crate::util::path::{
    begins, joined, path_text, slashed, NormalizationError, PartView, PathParts,
};
use vstd::prelude::*;
use vstd::string::*;

verus! {

pub const DEFAULT_MIN_SDK_VERSION: u32 = 24;

pub const DEFAULT_VULKAN_VALIDATION: bool = true;

pub const DEFAULT_PROJECT_DIR: &'static str = "gen/android";

/// The value that a missing `supported` stands for.
pub fn default_true() -> (r: bool)
    ensures
        r,
{
    true
}

/// An asset pack and how it reaches the device.
#[derive(Debug)]
pub struct AssetPackInfo {
    pub name: String,
    pub delivery_type: String,
}

/// What the package manifest says of the Android build.
#[derive(Debug)]
pub struct Metadata {
    pub supported: bool,
    pub features: Option<Vec<String>>,
    pub app_sources: Option<Vec<String>>,
    pub app_plugins: Option<Vec<String>>,
    pub project_dependencies: Option<Vec<String>>,
    pub app_dependencies: Option<Vec<String>>,
    pub app_dependencies_platform: Option<Vec<String>>,
    pub asset_packs: Option<Vec<AssetPackInfo>>,
}

impl Default for Metadata {
    fn default() -> (r: Self)
        ensures
            r.supported,
            r.features is None,
            r.app_sources is None,
            r.app_plugins is None,
            r.project_dependencies is None,
            r.app_dependencies is None,
            r.app_dependencies_platform is None,
            r.asset_packs is None,
    {
        Self {
            supported: true,
            features: None,
            app_sources: None,
            app_plugins: None,
            project_dependencies: None,
            app_dependencies: None,
            app_dependencies_platform: None,
            asset_packs: None,
        }
    }
}

/// The list that an optional field holds, as a slice.
pub fn listed<T>(field: &Option<Vec<T>>) -> (r: Option<&[T]>)
    ensures
        match (r, *field) {
            (Some(slice), Some(list)) => slice@ == list@,
            (None, None) => true,
            _ => false,
        },
{
    match field {
        Some(list) => Some(list.as_slice()),
        None => None,
    }
}

impl Metadata {
    pub fn supported(&self) -> (r: bool)
        ensures
            r == self.supported,
    {
        self.supported
    }

    /// Whether the default features are switched off: they are where the
    /// manifest lists features of its own.
    pub fn no_default_features(&self) -> (r: bool)
        ensures
            r == self.features is Some,
    {
        self.features.is_some()
    }

    pub fn features(&self) -> (r: Option<&[String]>)
        ensures
            match (r, self.features) {
                (Some(slice), Some(list)) => slice@ == list@,
                (None, None) => true,
                _ => false,
            },
    {
        listed(&self.features)
    }

    /// The sources of the app; none where the manifest names none.
    pub fn app_sources(&self) -> (r: &[String])
        ensures
            r@ == match self.app_sources {
                Some(list) => list@,
                None => Seq::<String>::empty(),
            },
    {
        match &self.app_sources {
            Some(list) => list.as_slice(),
            None => {
                let empty: &[String] = &[];
                empty
            },
        }
    }

    pub fn app_plugins(&self) -> (r: Option<&[String]>)
        ensures
            match (r, self.app_plugins) {
                (Some(slice), Some(list)) => slice@ == list@,
                (None, None) => true,
                _ => false,
            },
    {
        listed(&self.app_plugins)
    }

    pub fn project_dependencies(&self) -> (r: Option<&[String]>)
        ensures
            match (r, self.project_dependencies) {
                (Some(slice), Some(list)) => slice@ == list@,
                (None, None) => true,
                _ => false,
            },
    {
        listed(&self.project_dependencies)
    }

    pub fn app_dependencies(&self) -> (r: Option<&[String]>)
        ensures
            match (r, self.app_dependencies) {
                (Some(slice), Some(list)) => slice@ == list@,
                (None, None) => true,
                _ => false,
            },
    {
        listed(&self.app_dependencies)
    }

    pub fn app_dependencies_platform(&self) -> (r: Option<&[String]>)
        ensures
            match (r, self.app_dependencies_platform) {
                (Some(slice), Some(list)) => slice@ == list@,
                (None, None) => true,
                _ => false,
            },
    {
        listed(&self.app_dependencies_platform)
    }

    pub fn asset_packs(&self) -> (r: Option<&[AssetPackInfo]>)
        ensures
            match (r, self.asset_packs) {
                (Some(slice), Some(list)) => slice@ == list@,
                (None, None) => true,
                _ => false,
            },
    {
        listed(&self.asset_packs)
    }

    /// Whether the generated project holds code of its own: it does where
    /// the manifest names dependencies of any kind.
    pub fn has_code(&self) -> (r: bool)
        ensures
            r == (self.project_dependencies is Some || self.app_dependencies is Some
                || self.app_dependencies_platform is Some),
    {
        self.project_dependencies.is_some() || self.app_dependencies.is_some()
            || self.app_dependencies_platform.is_some()
    }
}

/// Why a project directory will not do.
#[derive(Debug)]
pub enum ProjectDirInvalid {
    NormalizationFailed { project_dir: String, cause: NormalizationError },
    OutsideOfAppRoot { project_dir: String, root_dir: PathParts },
    ContainsSpaces { project_dir: String },
}

impl ProjectDirInvalid {
    /// The sentence that describes the error.
    pub open spec fn message(&self) -> Seq<char> {
        match self {
            ProjectDirInvalid::NormalizationFailed { project_dir, cause } => {
                debug_text(project_dir@) + " couldn't be normalized: "@ + cause.message()
            },
            ProjectDirInvalid::OutsideOfAppRoot { project_dir, root_dir } => {
                debug_text(project_dir@) + " is outside of the app root "@ + debug_text(
                    path_text(root_dir@),
                )
            },
            ProjectDirInvalid::ContainsSpaces { project_dir } => {
                debug_text(project_dir@)
                    + " contains spaces, which the NDK is remarkably intolerant of"@
            },
        }
    }

    pub fn to_string(&self) -> (r: String)
        ensures
            r@ == self.message(),
    {
        match self {
            ProjectDirInvalid::NormalizationFailed { project_dir, cause } => {
                debug_str(project_dir.as_str()).concat(" couldn't be normalized: ").concat(
                    cause.to_string().as_str(),
                )
            },
            ProjectDirInvalid::OutsideOfAppRoot { project_dir, root_dir } => {
                debug_str(project_dir.as_str()).concat(" is outside of the app root ").concat(
                    debug_str(root_dir.to_string().as_str()).as_str(),
                )
            },
            ProjectDirInvalid::ContainsSpaces { project_dir } => {
                debug_str(project_dir.as_str()).concat(
                    " contains spaces, which the NDK is remarkably intolerant of",
                )
            },
        }
    }
}

/// Why the Android configuration will not do.
#[derive(Debug)]
pub enum Error {
    ProjectDirInvalid(ProjectDirInvalid),
}

impl Error {
    pub open spec fn message(&self) -> Seq<char> {
        match self {
            Error::ProjectDirInvalid(err) => "`android.project-dir` invalid: "@ + err.message(),
        }
    }

    pub fn report(&self, msg: &str) -> (r: Report)
        ensures
            r@ == (ReportView { label: Label::Error, msg: msg@, details: self.message() }),
    {
        match self {
            Error::ProjectDirInvalid(err) => Report::error(
                msg.to_owned(),
                "`android.project-dir` invalid: ".to_owned().concat(err.to_string().as_str()),
            ),
        }
    }
}

/// The Android table of the configuration file, as it is written.
#[derive(Debug)]
pub struct Raw {
    pub min_sdk_version: Option<u32>,
    pub vulkan_validation: Option<bool>,
    pub project_dir: Option<String>,
    pub no_default_features: Option<bool>,
    pub features: Option<Vec<String>>,
}

impl Default for Raw {
    fn default() -> (r: Self)
        ensures
            r.min_sdk_version is None,
            r.vulkan_validation is None,
            r.project_dir is None,
            r.no_default_features is None,
            r.features is None,
    {
        Self {
            min_sdk_version: None,
            vulkan_validation: None,
            project_dir: None,
            no_default_features: None,
            features: None,
        }
    }
}

/// The Android configuration of an app.
#[derive(Debug)]
pub struct Config {
    pub app: App,
    pub min_sdk_version: u32,
    pub vulkan_validation: bool,
    /// Where the project lies, seen from the app's root directory.
    pub project_dir: PathParts,
}

/// The ways in which a project directory can be wrong.
pub enum ProjectDirFault {
    NormalizationFailed,
    OutsideOfAppRoot,
    ContainsSpaces,
}

/// What is wrong with the project directory `project_dir`, if anything.
/// `normalized` is the directory seen from the root, made absolute by the
/// program, or why that failed. The directory must lie under the root, and
/// its name must hold no blank.
pub open spec fn project_dir_fault(
    project_dir: Seq<char>,
    root_dir: Seq<PartView>,
    normalized: Result<Seq<PartView>, ()>,
) -> Option<ProjectDirFault> {
    match normalized {
        Err(_) => Some(ProjectDirFault::NormalizationFailed),
        Ok(path) => if !begins(root_dir, path) {
            Some(ProjectDirFault::OutsideOfAppRoot)
        } else if project_dir.contains(' ') {
            Some(ProjectDirFault::ContainsSpaces)
        } else {
            None
        },
    }
}

/// A normalised path without its error.
pub open spec fn normalized_view(normalized: Result<PathParts, NormalizationError>) -> Result<
    Seq<PartView>,
    (),
> {
    match normalized {
        Ok(path) => Ok(path@),
        Err(_) => Err(()),
    }
}

/// What becomes of the Android table `raw`: the configuration with the
/// defaults filled in, unless the project directory has a fault.
pub open spec fn config_agrees(
    found: Result<Config, Error>,
    app: App,
    raw: Option<Raw>,
    normalized: Result<PathParts, NormalizationError>,
) -> bool {
    let fault = match raw {
        Some(Raw { project_dir: Some(dir), .. }) => project_dir_fault(
            dir@,
            app.root_dir@,
            normalized_view(normalized),
        ),
        _ => None,
    };
    match fault {
        Some(fault) => found matches Err(Error::ProjectDirInvalid(e)) && match e {
            ProjectDirInvalid::NormalizationFailed { project_dir, cause } => fault
                == ProjectDirFault::NormalizationFailed && project_dir@ == raw->0.project_dir->0@
                && normalized == Err::<PathParts, NormalizationError>(cause),
            ProjectDirInvalid::OutsideOfAppRoot { project_dir, root_dir } => fault
                == ProjectDirFault::OutsideOfAppRoot && project_dir@ == raw->0.project_dir->0@
                && root_dir@ == app.root_dir@,
            ProjectDirInvalid::ContainsSpaces { project_dir } => fault
                == ProjectDirFault::ContainsSpaces && project_dir@ == raw->0.project_dir->0@,
        },
        None => {
            &&& found matches Ok(config)
            &&& config.app.same(app)
            &&& config.project_dir@ == slashed(
                match raw {
                    Some(Raw { project_dir: Some(dir), .. }) => dir@,
                    _ => DEFAULT_PROJECT_DIR@,
                },
            )
            &&& config.min_sdk_version == match raw {
                Some(Raw { min_sdk_version: Some(v), .. }) => v,
                _ => DEFAULT_MIN_SDK_VERSION,
            }
            &&& config.vulkan_validation == match raw {
                Some(Raw { vulkan_validation: Some(v), .. }) => v,
                _ => DEFAULT_VULKAN_VALIDATION,
            }
        },
    }
}

impl Config {
    /// The path that the program has to make absolute before it calls
    /// `from_raw`: the project directory seen from the root directory. A
    /// configuration that names no project directory needs none.
    pub fn project_dir_to_check(app: &App, raw: &Option<Raw>) -> (r: Option<PathParts>)
        ensures
            match r {
                Some(path) => raw matches Some(raw) && raw.project_dir matches Some(dir) && path@
                    == joined(app.root_dir@, slashed(dir@)),
                None => raw is None || raw->0.project_dir is None,
            },
    {
        match raw {
            Some(raw) => match &raw.project_dir {
                Some(dir) => Some(app.root_dir.join_slashed(dir.as_str())),
                None => None,
            },
            None => None,
        }
    }

    /// Works the configuration out from what the file says, with the
    /// defaults for what it leaves out. `normalized` is the path of
    /// `project_dir_to_check` made absolute, or why that failed; it is
    /// looked at only where the file names a project directory.
    pub fn from_raw(
        app: App,
        raw: Option<Raw>,
        normalized: Result<PathParts, NormalizationError>,
    ) -> (r: Result<Self, Error>)
        ensures
            config_agrees(r, app, raw, normalized),
    {
        let raw = match raw {
            Some(raw) => raw,
            None => Raw::default(),
        };
        let min_sdk_version = match raw.min_sdk_version {
            Some(v) => v,
            None => DEFAULT_MIN_SDK_VERSION,
        };
        let vulkan_validation = match raw.vulkan_validation {
            Some(v) => v,
            None => DEFAULT_VULKAN_VALIDATION,
        };
        let project_dir = match raw.project_dir {
            Some(project_dir) => {
                let under_root = match normalized {
                    Ok(path) => crate::util::path::under_root(&path, &app.root_dir),
                    Err(cause) => {
                        return Err(
                            Error::ProjectDirInvalid(
                                ProjectDirInvalid::NormalizationFailed { project_dir, cause },
                            ),
                        );
                    },
                };
                if under_root {
                    if !contains_char(project_dir.as_str(), ' ') {
                        PathParts::from_slashed(project_dir.as_str())
                    } else {
                        return Err(
                            Error::ProjectDirInvalid(
                                ProjectDirInvalid::ContainsSpaces { project_dir },
                            ),
                        );
                    }
                } else {
                    return Err(
                        Error::ProjectDirInvalid(
                            ProjectDirInvalid::OutsideOfAppRoot {
                                project_dir,
                                root_dir: app.root_dir.copy(),
                            },
                        ),
                    );
                }
            },
            None => PathParts::from_slashed(DEFAULT_PROJECT_DIR),
        };
        Ok(Self { app, min_sdk_version, vulkan_validation, project_dir })
    }

    pub fn app(&self) -> (r: &App)
        ensures
            *r == self.app,
    {
        &self.app
    }

    /// The file name of the app's library.
    pub fn so_name(&self) -> (r: String)
        ensures
            r@ == "lib"@ + snake_case(self.app.name@) + ".so"@,
    {
        "lib".to_owned().concat(self.app.name_snake().as_str()).concat(".so")
    }

    pub fn min_sdk_version(&self) -> (r: u32)
        ensures
            r == self.min_sdk_version,
    {
        self.min_sdk_version
    }

    /// Where the generated project lies: under the project directory, in
    /// a directory called as the app is.
    pub open spec fn project_path(&self) -> Seq<PartView> {
        joined(self.app.root_dir@, self.project_dir@).push(PartView::Name(self.app.name@))
    }

    pub fn project_dir(&self) -> (r: PathParts)
        ensures
            r@ == self.project_path(),
    {
        self.app.prefix_path(&self.project_dir).join_name(self.app.name())
    }

    pub fn project_dir_exists(&self, disk: &Disk) -> (r: bool)
        ensures
            r == disk.dir_at(self.project_path()),
    {
        disk.is_dir(&self.project_dir())
    }
}

} // verus!
