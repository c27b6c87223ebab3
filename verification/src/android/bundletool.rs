//! `bundletool`, which turns an app bundle into packages for one device.

use crate::opts::ReinstallDeps;
use crate::os::Host;
use crate::text::{debug_str, debug_text};
use crate::util::cli::{Label, Report, ReportView};
use crate::util::command::{Command, CommandView};
use crate::util::disk::Disk;
use crate::util::path::{path_text, PartView, PathParts};
use vstd::prelude::*;
use vstd::string::*;

verus! {

/// The release of `bundletool` that is downloaded where the system has no
/// package of it.
pub struct BundletoolJarInfo {
    pub version: &'static str,
}

/// The release that the tool uses.
pub fn bundle_tool_jar_info() -> (r: BundletoolJarInfo)
    ensures
        r.version@ == "1.8.0"@,
{
    BundletoolJarInfo { version: "1.8.0" }
}

impl BundletoolJarInfo {
    pub fn new(version: &'static str) -> (r: Self)
        ensures
            r.version == version,
    {
        Self { version }
    }

    /// The name of the archive of the release.
    pub open spec fn file_name_text(&self) -> Seq<char> {
        "bundletool-all-"@ + self.version@ + ".jar"@
    }

    pub fn file_name(&self) -> (r: String)
        ensures
            r@ == self.file_name_text(),
    {
        "bundletool-all-".to_owned().concat(self.version).concat(".jar")
    }

    /// The name of the archive of the release.
    pub fn jar(&self) -> (r: String)
        ensures
            r@ == self.file_name_text(),
    {
        self.file_name()
    }

    /// Where the archive lies in a project that keeps it with the
    /// generated files.
    pub fn jar_path(&self) -> (r: String)
        ensures
            r@ == "gen/android/"@ + self.file_name_text(),
    {
        "gen/android/".to_owned().concat(self.jar().as_str())
    }

    /// Where the archive is installed, in the directory of the tools.
    pub fn installation_path(&self, tools_dir: &PathParts) -> (r: PathParts)
        ensures
            r@ == tools_dir@.push(PartView::Name(self.file_name_text())),
    {
        tools_dir.join_name(self.file_name().as_str())
    }

    /// Where the archive is downloaded from.
    pub fn download_url(&self) -> (r: String)
        ensures
            r@ == "https://github.com/google/bundletool/releases/download/"@ + self.version@
                + "/"@ + self.file_name_text(),
    {
        "https://github.com/google/bundletool/releases/download/".to_owned().concat(
            self.version,
        ).concat("/").concat(self.file_name().as_str())
    }

    /// The command that runs the installed archive.
    pub fn run_command(&self, tools_dir: &PathParts) -> (r: Command)
        ensures
            r@ == CommandView::impure("java"@).with_arg("-jar"@).with_arg(
                path_text(tools_dir@.push(PartView::Name(self.file_name_text()))),
            ),
    {
        Command::impure("java").with_arg("-jar").with_arg(
            self.installation_path(tools_dir).to_string().as_str(),
        )
    }
}

/// The command that runs `bundletool`: the system's own on macOS, the
/// downloaded archive elsewhere.
pub fn command(host: Host, tools_dir: &PathParts) -> (r: Command)
    ensures
        r@ == if host == Host::MacOs {
            CommandView::impure("bundletool"@)
        } else {
            CommandView::impure("java"@).with_arg("-jar"@).with_arg(
                path_text(tools_dir@.push(PartView::Name("bundletool-all-"@ + "1.8.0"@ + ".jar"@))),
            )
        },
{
    if host.is_macos() {
        Command::impure("bundletool")
    } else {
        bundle_tool_jar_info().run_command(tools_dir)
    }
}

/// Why `bundletool` could not be installed.
#[derive(Debug)]
pub enum InstallError {
    /// The package manager of macOS failed; the text says why.
    PackageFailed(String),
    DownloadFailed(String),
    JarFileCreationFailed { path: PathParts, cause: String },
    CopyToFileFailed { path: PathParts, cause: String },
}

impl InstallError {
    pub open spec fn headline(&self) -> Seq<char> {
        match self {
            InstallError::PackageFailed(_) => "Failed to install `bundletool`"@,
            InstallError::DownloadFailed(_) => "Failed to download `bundletool`"@,
            InstallError::JarFileCreationFailed { path, .. } => {
                "Failed to create bundletool.jar at "@ + debug_text(path_text(path@))
            },
            InstallError::CopyToFileFailed { path, .. } => {
                "Failed to copy content into bundletool.jar at "@ + debug_text(path_text(path@))
            },
        }
    }

    pub open spec fn cause(&self) -> Seq<char> {
        match self {
            InstallError::PackageFailed(cause) => cause@,
            InstallError::DownloadFailed(cause) => cause@,
            InstallError::JarFileCreationFailed { cause, .. } => cause@,
            InstallError::CopyToFileFailed { cause, .. } => cause@,
        }
    }

    pub fn report(&self) -> (r: Report)
        ensures
            r@ == (ReportView {
                label: Label::Error,
                msg: self.headline(),
                details: self.cause(),
            }),
    {
        match self {
            InstallError::PackageFailed(cause) => Report::error(
                "Failed to install `bundletool`".to_owned(),
                cause.clone(),
            ),
            InstallError::DownloadFailed(cause) => Report::error(
                "Failed to download `bundletool`".to_owned(),
                cause.clone(),
            ),
            InstallError::JarFileCreationFailed { path, cause } => Report::error(
                "Failed to create bundletool.jar at ".to_owned().concat(
                    debug_str(path.to_string().as_str()).as_str(),
                ),
                cause.clone(),
            ),
            InstallError::CopyToFileFailed { path, cause } => Report::error(
                "Failed to copy content into bundletool.jar at ".to_owned().concat(
                    debug_str(path.to_string().as_str()).as_str(),
                ),
                cause.clone(),
            ),
        }
    }
}

/// Whether the archive has to be downloaded: it has where nothing stands
/// at its place, or where the user asks for it.
pub fn install(reinstall_deps: ReinstallDeps, tools_dir: &PathParts, disk: &Disk) -> (r: bool)
    ensures
        r == (!disk.something_at(
            tools_dir@.push(PartView::Name("bundletool-all-"@ + "1.8.0"@ + ".jar"@)),
        ) || reinstall_deps == ReinstallDeps::Yes),
{
    let jar_path = bundle_tool_jar_info().installation_path(tools_dir);
    !disk.has(&jar_path) || reinstall_deps.yes()
}

} // verus!
