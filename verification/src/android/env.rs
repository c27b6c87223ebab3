//! The Android SDK and NDK that the tool builds with.

use super::ndk;
use crate::env::{Env as CoreEnv, Error as CoreError, VarError};
use crate::text::{debug_str, debug_text};
use crate::util::cli::{Label, Report, ReportView};
use crate::util::disk::Disk;
use crate::util::path::{path_text, Part, PartView, PathParts};
use crate::util::properties::{property, property_of};
use crate::util::version::VersionTriple;
use crate::decimal::ParseIntError;
use vstd::prelude::*;
use vstd::string::*;

verus! {

/// Why the Android tools cannot be used.
#[derive(Debug)]
pub enum Error {
    CoreEnvError(CoreError),
    AndroidSdkRootNotSet(VarError),
    AndroidSdkRootNotADir,
    NdkEnvError(ndk::Error),
}

impl Error {
    /// Whether the sentence of the error can be written.
    pub open spec fn nameable(&self) -> bool {
        match self {
            Error::NdkEnvError(err) => err.nameable(),
            _ => true,
        }
    }

    /// The sentence that describes the error.
    pub open spec fn message(&self) -> Seq<char> {
        match self {
            Error::CoreEnvError(err) => err.message(),
            Error::AndroidSdkRootNotSet(err) => {
                "Have you installed the Android SDK? The `ANDROID_SDK_ROOT` environment variable isn't set, and is required: "@
                    + err.message()
            },
            Error::AndroidSdkRootNotADir => {
                "Have you installed the Android SDK? The `ANDROID_SDK_ROOT` environment variable is set, but doesn't point to an existing directory."@
            },
            Error::NdkEnvError(err) => err.message(),
        }
    }

    pub fn to_string(&self) -> (r: String)
        requires
            self.nameable(),
        ensures
            r@ == self.message(),
    {
        match self {
            Error::CoreEnvError(err) => err.to_string(),
            Error::AndroidSdkRootNotSet(err) => {
                "Have you installed the Android SDK? The `ANDROID_SDK_ROOT` environment variable isn't set, and is required: ".to_owned().concat(
                    err.to_string().as_str(),
                )
            },
            Error::AndroidSdkRootNotADir => {
                "Have you installed the Android SDK? The `ANDROID_SDK_ROOT` environment variable is set, but doesn't point to an existing directory.".to_owned()
            },
            Error::NdkEnvError(err) => err.to_string(),
        }
    }

    /// The headline under which the error is reported.
    pub open spec fn headline(&self) -> Seq<char> {
        match self {
            Error::CoreEnvError(_) => "Failed to initialize base environment"@,
            Error::NdkEnvError(_) => "Failed to initialize NDK environment"@,
            _ => "Failed to initialize Android environment"@,
        }
    }

    pub fn report(&self) -> (r: Report)
        requires
            self.nameable(),
        ensures
            r@ == (ReportView {
                label: Label::Error,
                msg: self.headline(),
                details: self.message(),
            }),
    {
        match self {
            Error::CoreEnvError(err) => err.report(),
            Error::NdkEnvError(err) => err.report(),
            _ => Report::error(
                "Failed to initialize Android environment".to_owned(),
                self.to_string(),
            ),
        }
    }

    /// Whether the fault lies with the SDK or the NDK.
    pub fn sdk_or_ndk_issue(&self) -> (r: bool)
        ensures
            r == !(self is CoreEnvError),
    {
        match self {
            Error::CoreEnvError(_) => false,
            _ => true,
        }
    }
}

/// Why the version of the SDK could not be told.
#[derive(Debug)]
pub enum VersionError {
    OpenFailed { path: PathParts, source: String },
    ParseFailed { path: PathParts, source: String },
    VersionMissing { path: PathParts },
    ComponentNotNumerical { path: PathParts, component: String, source: ParseIntError },
    TooFewComponents { path: PathParts, version: String },
}

impl VersionError {
    /// The error in the form that the contracts of the NDK use.
    pub open spec fn view(&self) -> ndk::VersionErrorView {
        match self {
            VersionError::OpenFailed { path, source } => ndk::VersionErrorView::OpenFailed {
                path: path@,
                cause: source@,
            },
            VersionError::ParseFailed { path, source } => ndk::VersionErrorView::ParseFailed {
                path: path@,
                cause: source@,
            },
            VersionError::VersionMissing { path } => ndk::VersionErrorView::VersionMissing {
                path: path@,
            },
            VersionError::ComponentNotNumerical { path, component, source } => {
                ndk::VersionErrorView::ComponentNotNumerical {
                    path: path@,
                    component: component@,
                    cause: *source,
                }
            },
            VersionError::TooFewComponents { path, version } => {
                ndk::VersionErrorView::TooFewComponents { path: path@, version: version@ }
            },
        }
    }

    /// The sentence that describes the error.
    pub open spec fn message(&self) -> Seq<char> {
        match self {
            VersionError::TooFewComponents { path, version } => {
                "Version "@ + debug_text(version@) + " in properties file "@ + debug_text(
                    path_text(path@),
                ) + " didn't have as many components as expected."@
            },
            _ => self.view().message(),
        }
    }

    pub fn to_string(&self) -> (r: String)
        ensures
            r@ == self.message(),
    {
        match self {
            VersionError::OpenFailed { path, source } => {
                "Failed to open ".to_owned().concat(
                    debug_str(path.to_string().as_str()).as_str(),
                ).concat(": ").concat(source.as_str())
            },
            VersionError::ParseFailed { path, source } => {
                "Failed to parse ".to_owned().concat(
                    debug_str(path.to_string().as_str()).as_str(),
                ).concat(": ").concat(source.as_str())
            },
            VersionError::VersionMissing { path } => {
                "No version number was present in ".to_owned().concat(
                    debug_str(path.to_string().as_str()).as_str(),
                ).concat(".")
            },
            VersionError::ComponentNotNumerical { path, component, source } => {
                "Properties at ".to_owned().concat(
                    debug_str(path.to_string().as_str()).as_str(),
                ).concat(" contained a version component ").concat(
                    debug_str(component.as_str()).as_str(),
                ).concat(" that wasn't a valid number: ").concat(source.to_string().as_str())
            },
            VersionError::TooFewComponents { path, version } => {
                "Version ".to_owned().concat(debug_str(version.as_str()).as_str()).concat(
                    " in properties file ",
                ).concat(debug_str(path.to_string().as_str()).as_str()).concat(
                    " didn't have as many components as expected.",
                )
            },
        }
    }
}

/// The variables and directories that Android builds need.
#[derive(Debug)]
pub struct Env {
    pub base: CoreEnv,
    pub sdk_root: PathParts,
    pub ndk: ndk::Env,
}

/// The directory of the SDK: the one that `ANDROID_SDK_ROOT` names if it
/// is set and a directory, else the one that `ANDROID_HOME` names if that
/// is a directory.
pub open spec fn sdk_root_of(
    sdk_root: Result<Seq<PartView>, ()>,
    android_home: Option<Seq<PartView>>,
    disk: &Disk,
) -> Option<Seq<PartView>> {
    if sdk_root is Ok && disk.dir_at(sdk_root->Ok_0) {
        Some(sdk_root->Ok_0)
    } else if android_home is Some && disk.dir_at(android_home->0) {
        android_home
    } else {
        None
    }
}

/// The file in which an SDK tells its version.
pub open spec fn sdk_properties_path(sdk_root: Seq<PartView>) -> Seq<PartView> {
    sdk_root.push(PartView::Name("tools"@)).push(PartView::Name("source.properties"@))
}

/// The version that the revision of an SDK spells: its first three
/// components.
pub open spec fn sdk_version_of_revision(revision: Seq<char>, path: Seq<PartView>) -> Result<
    VersionTriple,
    ndk::VersionErrorView,
> {
    match ndk::leading_numbers(crate::text::split(revision, '.'), 3) {
        Err((component, cause)) => Err(
            ndk::VersionErrorView::ComponentNotNumerical { path, component, cause },
        ),
        Ok(numbers) => if numbers.len() == 3 {
            Ok(VersionTriple { major: numbers[0], minor: numbers[1], patch: numbers[2] })
        } else {
            Err(ndk::VersionErrorView::TooFewComponents { path, version: revision })
        },
    }
}

/// The version that the properties file of an SDK tells. Of a file that
/// is no properties file the reader says why in its own words; here that
/// text is left empty.
pub open spec fn sdk_version_of_properties(
    contents: Result<Seq<u8>, Seq<char>>,
    path: Seq<PartView>,
) -> Result<VersionTriple, ndk::VersionErrorView> {
    match contents {
        Err(cause) => Err(ndk::VersionErrorView::OpenFailed { path, cause }),
        Ok(bytes) => match property_of(bytes, "Pkg.Revision"@) {
            None => Err(ndk::VersionErrorView::ParseFailed { path, cause: Seq::<char>::empty() }),
            Some(None) => Err(ndk::VersionErrorView::VersionMissing { path }),
            Some(Some(revision)) => sdk_version_of_revision(revision, path),
        },
    }
}

/// `found` is the result `expected`, but for the words of the reader in
/// a `ParseFailed`.
pub open spec fn sdk_version_agrees(
    found: Result<VersionTriple, VersionError>,
    expected: Result<VersionTriple, ndk::VersionErrorView>,
) -> bool {
    match (found, expected) {
        (Ok(a), Ok(b)) => a == b,
        (Err(a), Err(ndk::VersionErrorView::ParseFailed { path, .. })) => a.view() is ParseFailed
            && a.view()->ParseFailed_path == path,
        (Err(a), Err(b)) => a.view() == b,
        _ => false,
    }
}

/// A path without the error that stands in its place.
pub open spec fn var_path(var: Result<PathParts, VarError>) -> Result<Seq<PartView>, ()> {
    match var {
        Ok(path) => Ok(path@),
        Err(_) => Err(()),
    }
}

impl Env {
    /// Puts the environment together from its parts, each of which the
    /// program has looked up: the base variables, the directories that
    /// `ANDROID_SDK_ROOT` and `ANDROID_HOME` name, and the NDK. The first
    /// part that is missing decides the error, in that order.
    pub fn new(
        base: Result<CoreEnv, CoreError>,
        sdk_root: Result<PathParts, VarError>,
        android_home: Option<PathParts>,
        disk: &Disk,
        ndk: Result<ndk::Env, ndk::Error>,
    ) -> (r: Result<Self, Error>)
        ensures
            match base {
                Err(e) => r matches Err(Error::CoreEnvError(f)) && f == e,
                Ok(base) => match sdk_root_of(
                    var_path(sdk_root),
                    crate::view::opt_view(android_home),
                    disk,
                ) {
                    None => match sdk_root {
                        Err(e) => r matches Err(Error::AndroidSdkRootNotSet(f)) && f == e,
                        Ok(_) => r matches Err(Error::AndroidSdkRootNotADir),
                    },
                    Some(root) => match ndk {
                        Err(e) => r matches Err(Error::NdkEnvError(f)) && f == e,
                        Ok(ndk) => r matches Ok(env) && env.base == base && env.sdk_root@ == root
                            && env.ndk == ndk,
                    },
                },
            },
    {
        let base = match base {
            Ok(base) => base,
            Err(e) => {
                return Err(Error::CoreEnvError(e));
            },
        };
        let first = match sdk_root {
            Ok(root) => if disk.is_dir(&root) {
                Ok(root)
            } else {
                Err(Error::AndroidSdkRootNotADir)
            },
            Err(e) => Err(Error::AndroidSdkRootNotSet(e)),
        };
        let sdk_root = match first {
            Ok(root) => root,
            Err(err) => match android_home {
                Some(home) => if disk.is_dir(&home) {
                    home
                } else {
                    return Err(err);
                },
                None => {
                    return Err(err);
                },
            },
        };
        let ndk = match ndk {
            Ok(ndk) => ndk,
            Err(e) => {
                return Err(Error::NdkEnvError(e));
            },
        };
        Ok(Self { base, sdk_root, ndk })
    }

    pub fn path(&self) -> (r: &str)
        ensures
            r@ == self.base.path@,
    {
        self.base.path()
    }

    /// The directory of the SDK, written out.
    pub fn sdk_root(&self) -> (r: String)
        ensures
            r@ == path_text(self.sdk_root@),
    {
        self.sdk_root.to_string()
    }

    /// The file in which the SDK tells its version.
    pub fn sdk_version_path(&self) -> (r: PathParts)
        ensures
            r@ == sdk_properties_path(self.sdk_root@),
    {
        self.sdk_root.join_name("tools").join_name("source.properties")
    }

    /// The version of the SDK, read from `properties`: what its
    /// properties file holds, or why it could not be opened.
    pub fn sdk_version(&self, properties: Result<Vec<u8>, String>) -> (r: Result<
        VersionTriple,
        VersionError,
    >)
        ensures
            sdk_version_agrees(
                r,
                sdk_version_of_properties(
                    ndk::contents_view(properties),
                    sdk_properties_path(self.sdk_root@),
                ),
            ),
    {
        let path = self.sdk_version_path();
        let bytes = match properties {
            Ok(bytes) => bytes,
            Err(source) => {
                return Err(VersionError::OpenFailed { path, source });
            },
        };
        let revision = match property(&bytes, "Pkg.Revision") {
            Err(source) => {
                return Err(VersionError::ParseFailed { path, source });
            },
            Ok(None) => {
                return Err(VersionError::VersionMissing { path });
            },
            Ok(Some(revision)) => revision,
        };
        match ndk::revision_numbers(revision.as_str(), 3) {
            Err((component, source)) => Err(
                VersionError::ComponentNotNumerical { path, component, source },
            ),
            Ok(numbers) => if numbers.len() == 3 {
                Ok(VersionTriple { major: numbers[0], minor: numbers[1], patch: numbers[2] })
            } else {
                Err(VersionError::TooFewComponents { path, version: revision })
            },
        }
    }

    /// The variables that every Android command gets: the base ones, then
    /// the directories of the SDK and the NDK.
    pub open spec fn explicit(&self) -> Seq<(Seq<char>, Seq<char>)> {
        self.base.explicit().push(("ANDROID_SDK_ROOT"@, path_text(self.sdk_root@))).push(
            ("NDK_HOME"@, path_text(self.ndk.ndk_home@)),
        )
    }

    pub fn explicit_vars(&self) -> (r: Vec<(String, String)>)
        ensures
            r.deep_view() == self.explicit(),
    {
        let mut envs = self.base.explicit_vars();
        envs.push(("ANDROID_SDK_ROOT".to_owned(), self.sdk_root.to_string()));
        envs.push(("NDK_HOME".to_owned(), self.ndk.ndk_home.to_string()));
        envs
    }
}

impl crate::env::ExplicitEnv for Env {
    fn explicit_env(&self) -> (r: Vec<(String, String)>)
        ensures
            r.deep_view() == self.explicit(),
    {
        self.explicit_vars()
    }
}

} // verus!
