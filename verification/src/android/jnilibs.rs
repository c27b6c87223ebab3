//! The directory from which an Android build takes the app's libraries.

use super::config::Config;
use super::target::Target;
use crate::text::{debug_str, debug_text};
use crate::util::cli::{Label, Report, ReportView};
use crate::util::disk::Disk;
use crate::util::ln::{has_file_name, Error as LinkError, Link, TargetStyle};
use crate::util::path::{joined, path_text, slashed, PartView, PathParts};
use vstd::prelude::*;
use vstd::string::*;

verus! {

/// Why links to libraries that are gone could not be cleared away.
#[derive(Debug)]
pub enum RemoveBrokenLinksError {
    ReadDirFailed { dir: PathParts, source: String },
    EntryFailed { dir: PathParts, source: String },
    RemoveFailed { path: PathParts, source: String },
}

impl RemoveBrokenLinksError {
    pub open spec fn headline(&self) -> Seq<char> {
        match self {
            RemoveBrokenLinksError::ReadDirFailed { dir, .. } => {
                "Failed to list contents of jniLibs directory "@ + debug_text(path_text(dir@))
            },
            RemoveBrokenLinksError::EntryFailed { dir, .. } => {
                "Failed to get entry in jniLibs directory "@ + debug_text(path_text(dir@))
            },
            RemoveBrokenLinksError::RemoveFailed { path, .. } => {
                "Failed to remove broken symlink "@ + debug_text(path_text(path@))
            },
        }
    }

    pub open spec fn cause(&self) -> Seq<char> {
        match self {
            RemoveBrokenLinksError::ReadDirFailed { source, .. } => source@,
            RemoveBrokenLinksError::EntryFailed { source, .. } => source@,
            RemoveBrokenLinksError::RemoveFailed { source, .. } => source@,
        }
    }

    pub fn report(&self) -> (r: Report)
        ensures
            r@ == (ReportView {
                label: Label::Error,
                msg: self.headline(),
                details: self.cause(),
            }),
    {
        match self {
            RemoveBrokenLinksError::ReadDirFailed { dir, source } => Report::error(
                "Failed to list contents of jniLibs directory ".to_owned().concat(
                    debug_str(dir.to_string().as_str()).as_str(),
                ),
                source.clone(),
            ),
            RemoveBrokenLinksError::EntryFailed { dir, source } => Report::error(
                "Failed to get entry in jniLibs directory ".to_owned().concat(
                    debug_str(dir.to_string().as_str()).as_str(),
                ),
                source.clone(),
            ),
            RemoveBrokenLinksError::RemoveFailed { path, source } => Report::error(
                "Failed to remove broken symlink ".to_owned().concat(
                    debug_str(path.to_string().as_str()).as_str(),
                ),
                source.clone(),
            ),
        }
    }
}

/// Why a library could not be linked into the project.
#[derive(Debug)]
pub enum SymlinkLibError {
    SourceMissing(PathParts),
    /// The link could not be made; the text says why.
    SymlinkFailed(String),
}

impl SymlinkLibError {
    pub open spec fn details(&self) -> Seq<char> {
        match self {
            SymlinkLibError::SourceMissing(src) => {
                "The symlink source is "@ + debug_text(path_text(src@))
                    + ", but nothing exists there"@
            },
            SymlinkLibError::SymlinkFailed(cause) => cause@,
        }
    }

    pub fn report(&self) -> (r: Report)
        ensures
            r@ == (ReportView {
                label: Label::Error,
                msg: "Failed to symlink lib"@,
                details: self.details(),
            }),
    {
        match self {
            SymlinkLibError::SourceMissing(src) => Report::error(
                "Failed to symlink lib".to_owned(),
                "The symlink source is ".to_owned().concat(
                    debug_str(src.to_string().as_str()).as_str(),
                ).concat(", but nothing exists there"),
            ),
            SymlinkLibError::SymlinkFailed(cause) => Report::error(
                "Failed to symlink lib".to_owned(),
                cause.clone(),
            ),
        }
    }
}

/// Where the libraries for the ABI `abi` lie in the generated project.
pub open spec fn jnilibs_path(config: &Config, abi: Seq<char>) -> Seq<PartView> {
    joined(config.project_path(), slashed("app/src/main/jniLibs/"@ + abi))
}

/// Where the libraries for `target` lie in the generated project.
pub fn path(config: &Config, target: Target<'_>) -> (r: PathParts)
    ensures
        r@ == jnilibs_path(config, target.abi@),
{
    let tail = "app/src/main/jniLibs/".to_owned().concat(target.abi);
    config.project_dir().join_slashed(tail.as_str())
}

/// The directory of the libraries of one target.
#[derive(Debug)]
pub struct JniLibs {
    pub path: PathParts,
}

impl JniLibs {
    /// The directory for `target`; the program creates it on disk.
    pub fn create(config: &Config, target: Target<'_>) -> (r: Self)
        ensures
            r.path@ == jnilibs_path(config, target.abi@),
    {
        Self { path: path(config, target) }
    }

    /// Whether a link is broken: `points_to` is where it leads, and
    /// nothing stands there.
    pub fn broken_link(points_to: &PathParts, disk: &Disk) -> (r: bool)
        ensures
            r == !disk.something_at(points_to@),
    {
        !disk.has(points_to)
    }

    /// The link that brings the library `src` into the directory, under
    /// its own name.
    pub fn symlink_lib(&self, src: &PathParts, disk: &Disk) -> (r: Result<Link, SymlinkLibError>)
        requires
            has_file_name(src@),
        ensures
            match r {
                Ok(link) => disk.file_at(src@) && link.source@ == src@ && link.target@
                    == self.path@.push(src@.last()) && link.target_style == TargetStyle::File,
                Err(e) => !disk.file_at(src@) && (e matches SymlinkLibError::SourceMissing(p)
                    && p@ == src@),
            },
    {
        if disk.is_file(src) {
            match src.file_name() {
                Some(name) => Ok(
                    Link {
                        source: src.copy(),
                        target: self.path.join_name(name.as_str()),
                        target_style: TargetStyle::File,
                    },
                ),
                None => {
                    Err(SymlinkLibError::SourceMissing(src.copy()))
                },
            }
        } else {
            Err(SymlinkLibError::SourceMissing(src.copy()))
        }
    }
}

} // verus!
