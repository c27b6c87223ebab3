//! The Xcode project that the tool generates.

use super::config::Config;
use crate::text::{debug_str, debug_text};
use crate::util::cli::{Label, Report, ReportView};
use crate::util::command::{Command, CommandView};
use crate::util::path::{joined, path_text, slashed, PartView, PathParts};
use crate::util::rust_version::RustVersionError;
use vstd::prelude::*;
use vstd::string::*;

verus! {

/// The name of the template pack of the project.
pub const TEMPLATE_PACK: &'static str = "xcode";

/// Why the project could not be generated.
#[derive(Debug)]
pub enum Error {
    RustupFailed(String),
    RustVersionCheckFailed(RustVersionError),
    DepsInstallFailed(super::deps::Error),
    MissingPack(String),
    TemplateProcessingFailed(String),
    AssetDirSymlinkFailed(String),
    DirectoryCreationFailed { path: PathParts, cause: String },
    XcodegenFailed(String),
    PodInstallFailed(String),
}

impl Error {
    pub open spec fn reported(&self) -> ReportView {
        match self {
            Error::RustupFailed(err) => ReportView {
                label: Label::Error,
                msg: "Failed to `rustup` Apple toolchains"@,
                details: err@,
            },
            Error::RustVersionCheckFailed(err) => ReportView {
                label: Label::Error,
                msg: "Failed to check Rust version"@,
                details: err@.message(),
            },
            Error::DepsInstallFailed(err) => ReportView {
                label: Label::Error,
                msg: "Failed to install Apple dependencies"@,
                details: err.message(),
            },
            Error::MissingPack(err) => ReportView {
                label: Label::Error,
                msg: "Failed to locate Xcode template pack"@,
                details: err@,
            },
            Error::TemplateProcessingFailed(err) => ReportView {
                label: Label::Error,
                msg: "Xcode template processing failed"@,
                details: err@,
            },
            Error::AssetDirSymlinkFailed(err) => ReportView {
                label: Label::Error,
                msg: "Asset dir couldn't be symlinked into Xcode project"@,
                details: err@,
            },
            Error::DirectoryCreationFailed { path, cause } => ReportView {
                label: Label::Error,
                msg: "Failed to create iOS assets directory at "@ + debug_text(path_text(path@)),
                details: cause@,
            },
            Error::XcodegenFailed(err) => ReportView {
                label: Label::Error,
                msg: "Failed to run `xcodegen`"@,
                details: err@,
            },
            Error::PodInstallFailed(err) => ReportView {
                label: Label::Error,
                msg: "Failed to run `pod install`"@,
                details: err@,
            },
        }
    }

    pub fn report(&self) -> (r: Report)
        ensures
            r@ == self.reported(),
    {
        match self {
            Error::RustupFailed(err) => Report::error(
                "Failed to `rustup` Apple toolchains".to_owned(),
                err.clone(),
            ),
            Error::RustVersionCheckFailed(err) => err.report(),
            Error::DepsInstallFailed(err) => Report::error(
                "Failed to install Apple dependencies".to_owned(),
                err.to_string(),
            ),
            Error::MissingPack(err) => Report::error(
                "Failed to locate Xcode template pack".to_owned(),
                err.clone(),
            ),
            Error::TemplateProcessingFailed(err) => Report::error(
                "Xcode template processing failed".to_owned(),
                err.clone(),
            ),
            Error::AssetDirSymlinkFailed(err) => Report::error(
                "Asset dir couldn't be symlinked into Xcode project".to_owned(),
                err.clone(),
            ),
            Error::DirectoryCreationFailed { path, cause } => Report::error(
                "Failed to create iOS assets directory at ".to_owned().concat(
                    debug_str(path.to_string().as_str()).as_str(),
                ),
                cause.clone(),
            ),
            Error::XcodegenFailed(err) => Report::error(
                "Failed to run `xcodegen`".to_owned(),
                err.clone(),
            ),
            Error::PodInstallFailed(err) => Report::error(
                "Failed to run `pod install`".to_owned(),
                err.clone(),
            ),
        }
    }
}

/// The directories of sources that Xcode shows: `src`, and the submodule
/// of the template pack if there is one, each seen from the project.
pub fn source_dirs(rel_prefix: &PathParts, submodule_path: Option<&PathParts>) -> (r: Vec<
    PathParts,
>)
    ensures
        r.len() == if submodule_path is Some {
            2nat
        } else {
            1nat
        },
        r[0]@ == rel_prefix@.push(PartView::Name("src"@)),
        submodule_path matches Some(path) ==> r[1]@ == joined(rel_prefix@, path@),
{
    let mut dirs: Vec<PathParts> = Vec::new();
    dirs.push(rel_prefix.join_name("src"));
    match submodule_path {
        Some(path) => {
            dirs.push(rel_prefix.join(path));
        },
        None => {},
    }
    dirs
}

/// The architectures that the project is built for: those that the
/// manifest names, or else the two that every iOS device or simulator
/// has.
pub fn valid_archs(chosen: Option<&Vec<String>>) -> (r: Vec<String>)
    ensures
        r.deep_view() == match chosen {
            Some(archs) => archs.deep_view(),
            None => seq!["arm64"@, "x86_64"@],
        },
{
    match chosen {
        Some(archs) => {
            let mut r: Vec<String> = Vec::new();
            let mut i: usize = 0;
            while i < archs.len()
                invariant
                    i <= archs.len(),
                    r.deep_view() == archs.deep_view().take(i as int),
                decreases archs.len() - i,
            {
                let ghost before = r.deep_view();
                r.push(archs[i].clone());
                proof {
                    assert(r.deep_view() =~= before.push(archs[i as int]@));
                }
                i += 1;
            }
            r
        },
        None => {
            let r = vec!["arm64".to_owned(), "x86_64".to_owned()];
            r
        },
    }
}

/// `xcodegen`, making the project from its specification.
pub open spec fn xcodegen_view(config: &Config) -> CommandView {
    CommandView::impure("xcodegen"@).with_args(seq!["generate"@, "--spec"@]).with_arg(
        path_text(config.project_path().push(PartView::Name("project.yml"@))),
    )
}

pub fn xcodegen(config: &Config) -> (r: Command)
    ensures
        r@ == xcodegen_view(config),
{
    let args = vec!["generate".to_owned(), "--spec".to_owned()];
    proof {
        assert(args.deep_view() =~= seq!["generate"@, "--spec"@]);
    }
    Command::impure("xcodegen").with_args(&args).with_arg(
        config.project_dir().join_name("project.yml").to_string().as_str(),
    )
}

/// `pod install`, pointed at the project.
pub open spec fn pod_install_view(config: &Config) -> CommandView {
    CommandView::impure("pod"@).with_arg("install"@).with_arg(
        "--project-directory="@ + path_text(config.project_path()),
    )
}

pub fn pod_install(config: &Config) -> (r: Command)
    ensures
        r@ == pod_install_view(config),
{
    Command::impure("pod").with_arg("install").with_arg(
        "--project-directory=".to_owned().concat(config.project_dir().to_string().as_str()).as_str(),
    )
}

/// The commands that finish the project once its templates are written:
/// `xcodegen`, and `pod install` if a platform has pods.
pub fn gen(config: &Config, ios_pods: usize, macos_pods: usize) -> (r: Vec<Command>)
    ensures
        r.len() == if ios_pods > 0 || macos_pods > 0 {
            2nat
        } else {
            1nat
        },
        r[0]@ == xcodegen_view(config),
        (ios_pods > 0 || macos_pods > 0) ==> r[1]@ == pod_install_view(config),
{
    let mut commands: Vec<Command> = Vec::new();
    commands.push(xcodegen(config));
    if ios_pods > 0 || macos_pods > 0 {
        commands.push(pod_install(config));
    }
    commands
}

} // verus!
