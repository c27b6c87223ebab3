//! Links between files and directories.

use crate::os::Host;
use crate::util::disk::{Disk, Kind};
use crate::util::path::{
    absolute, joined, path_text, relativize_path, relativized, well_formed, PartView, PathParts,
};
use vstd::prelude::*;
use vstd::string::*;

verus! {

#[derive(Clone, Copy, Debug, PartialEq, Eq, Structural)]
pub enum LinkType {
    Hard,
    Symbolic,
}

/// What may be removed to make room for a link.
#[derive(Clone, Copy, Debug, PartialEq, Eq, Structural)]
pub enum Clobber {
    Never,
    FileOnly,
    FileOrDirectory,
}

/// Whether the target names the link itself or the directory that the
/// link is put into.
#[derive(Clone, Copy, Debug, PartialEq, Eq, Structural)]
pub enum TargetStyle {
    File,
    Directory,
}

/// Why a link could not be made.
#[derive(Debug)]
pub enum ErrorCause {
    MissingFileName,
    /// The system refused; the text says why.
    IOError(String),
    SymlinkNotAllowed,
    /// The command that makes the link failed; the text says why.
    CommandFailed(String),
}

/// A link that could not be made.
#[derive(Debug)]
pub struct Error {
    pub link_type: LinkType,
    pub force: Clobber,
    pub source: PathParts,
    pub target: PathParts,
    pub target_style: TargetStyle,
    pub cause: ErrorCause,
}

impl Error {
    pub fn new(
        link_type: LinkType,
        force: Clobber,
        source: PathParts,
        target: PathParts,
        target_style: TargetStyle,
        cause: ErrorCause,
    ) -> (r: Self)
        ensures
            r.link_type == link_type,
            r.force == force,
            r.source == source,
            r.target == target,
            r.target_style == target_style,
            r.cause == cause,
    {
        Self { link_type, force, source, target, target_style, cause }
    }
}

/// A symbolic link that the program is to make, replacing what stands at
/// the target.
#[derive(Debug)]
pub struct Link {
    pub source: PathParts,
    pub target: PathParts,
    pub target_style: TargetStyle,
}

/// Whether a path ends in a name of its own.
pub open spec fn has_file_name(path: Seq<PartView>) -> bool {
    path.len() > 0 && path.last() is Name && path.last() != PartView::Name(".."@)
}

/// The link from `abs_target` to `abs_source` with the source written as
/// seen from the target.
///
/// A relative source that ends in no name of its own, as `..` does, cannot
/// be put into a directory under its own name; the link is then made
/// under the name of the absolute source. Where that has no name either,
/// there is no link to make.
pub fn force_symlink_relative(
    abs_source: &PathParts,
    abs_target: &PathParts,
    target_style: TargetStyle,
    host: Host,
) -> (r: Result<Link, Error>)
    requires
        well_formed(abs_source@),
        absolute(abs_source@, host),
        absolute(abs_target@, host),
        host.windows() ==> abs_source@[0] == abs_target@[0] && abs_source@.len()
            <= abs_target@.len(),
    ensures
        ({
            let rel = relativized(abs_source@, abs_target@, host);
            if target_style == TargetStyle::Directory && !has_file_name(rel) {
                if has_file_name(abs_source@) {
                    r matches Ok(link) && link.source@ == rel && link.target@ == abs_target@.push(
                        abs_source@.last(),
                    ) && link.target_style == TargetStyle::File
                } else {
                    r matches Err(e) && e.cause is MissingFileName && e.source@ == rel
                        && e.target@ == abs_target@ && e.target_style == target_style
                        && e.link_type == LinkType::Symbolic && e.force == Clobber::FileOnly
                }
            } else {
                r matches Ok(link) && link.source@ == rel && link.target@ == abs_target@
                    && link.target_style == target_style
            }
        }),
{
    let rel_source = relativize_path(abs_source, abs_target, host);
    let directory = match target_style {
        TargetStyle::Directory => true,
        TargetStyle::File => false,
    };
    if directory && rel_source.file_name().is_none() {
        match abs_source.file_name() {
            Some(file_name) => Ok(
                Link {
                    source: rel_source,
                    target: abs_target.join_name(file_name.as_str()),
                    target_style: TargetStyle::File,
                },
            ),
            None => Err(
                Error::new(
                    LinkType::Symbolic,
                    Clobber::FileOnly,
                    rel_source,
                    abs_target.copy(),
                    target_style,
                    ErrorCause::MissingFileName,
                ),
            ),
        }
    } else {
        Ok(Link { source: rel_source, target: abs_target.copy(), target_style })
    }
}

/// Where a link really goes: into the directory `target` under the name
/// of the source, or to `target` itself.
pub fn link_target(source: &PathParts, target: &PathParts, target_style: TargetStyle) -> (r: Result<
    PathParts,
    Error,
>)
    ensures
        if target_style == TargetStyle::Directory {
            if has_file_name(source@) {
                r matches Ok(path) && path@ == target@.push(source@.last())
            } else {
                r matches Err(e) && e.cause is MissingFileName && e.source@ == source@
                    && e.target@ == target@
            }
        } else {
            r matches Ok(path) && path@ == target@
        },
{
    match target_style {
        TargetStyle::Directory => match source.file_name() {
            Some(file_name) => Ok(target.join_name(file_name.as_str())),
            None => Err(
                Error::new(
                    LinkType::Symbolic,
                    Clobber::FileOnly,
                    source.copy(),
                    target.copy(),
                    target_style,
                    ErrorCause::MissingFileName,
                ),
            ),
        },
        TargetStyle::File => Ok(target.copy()),
    }
}

/// What has to go before a link can stand at a place.
#[derive(Clone, Copy, Debug, PartialEq, Eq, Structural)]
pub enum Removal {
    Nothing,
    Symlink,
    File,
    DirAll,
}

/// What has to be removed at the place of a link: a link that stands
/// there, else a file, else a directory with all that is in it.
pub fn removal(is_symlink: bool, found: Option<Kind>) -> (r: Removal)
    ensures
        r == if is_symlink {
            Removal::Symlink
        } else if found == Some(Kind::File) {
            Removal::File
        } else if found == Some(Kind::Dir) {
            Removal::DirAll
        } else {
            Removal::Nothing
        },
{
    if is_symlink {
        Removal::Symlink
    } else {
        match found {
            Some(Kind::File) => Removal::File,
            Some(Kind::Dir) => Removal::DirAll,
            _ => Removal::Nothing,
        }
    }
}

/// What making a link over whatever stands in its place has to do.
#[derive(Debug)]
pub struct ForcedLink {
    /// Where the link goes.
    pub target: PathParts,
    /// What has to go first.
    pub removal: Removal,
    /// Whether the link is made as a link to a directory.
    pub directory: bool,
}

/// The directory that holds `path`: the path without its last name, if
/// it ends in a name (`Path::parent`).
pub open spec fn parent_of(path: Seq<PartView>) -> Option<Seq<PartView>> {
    if path.len() > 0 && path.last() is Name {
        Some(path.drop_last())
    } else {
        None
    }
}

/// Whether the source of a link, seen from the directory of the link,
/// is a directory on `disk`.
pub open spec fn points_to_dir(source: Seq<PartView>, target: Seq<PartView>, disk: &Disk) -> bool {
    match parent_of(target) {
        Some(parent) => disk.dir_at(joined(parent, source)),
        None => false,
    }
}

/// Plans a symbolic link from `target` to `source` on Windows, where a
/// link to a directory is another thing than a link to a file, and where
/// what stands at the target is removed by its kind. `is_symlink` tells
/// whether a link stands at `at`, the place that `link_target` gives.
pub fn force_symlink(
    source: &PathParts,
    target: &PathParts,
    target_style: TargetStyle,
    is_symlink: bool,
    disk: &Disk,
) -> (r: Result<ForcedLink, Error>)
    ensures
        if target_style == TargetStyle::Directory && !has_file_name(source@) {
            r matches Err(e) && e.cause is MissingFileName && e.source@ == source@ && e.target@
                == target@
        } else {
            let at = if target_style == TargetStyle::Directory {
                target@.push(source@.last())
            } else {
                target@
            };
            r matches Ok(link) && link.target@ == at && link.directory == points_to_dir(
                source@,
                at,
                disk,
            ) && link.removal == if is_symlink {
                Removal::Symlink
            } else if disk.file_at(at) {
                Removal::File
            } else if disk.dir_at(at) {
                Removal::DirAll
            } else {
                Removal::Nothing
            }
        },
{
    let at = match link_target(source, target, target_style) {
        Ok(at) => at,
        Err(e) => {
            return Err(e);
        },
    };
    let n = at.len();
    proof {
        if n > 0 {
        }
    }
    let ends_in_name = n > 0 && match &at.parts[n - 1] {
        crate::util::path::Part::Name(_) => true,
        _ => false,
    };
    let directory = if ends_in_name {
        disk.is_dir(&at.take(n - 1).join(source))
    } else {
        false
    };
    let what = removal(is_symlink, disk.lookup(&at));
    Ok(ForcedLink { target: at, removal: what, directory })
}

} // verus!
