//! The files of the base project, which every platform shares.

use crate::text::{chars_of, debug_str, debug_text, string_of};
use crate::util::cli::{Label, Report, ReportView};
use crate::util::disk::{Disk, Kind};
use crate::util::path::{path_text, Part, PartView, PathParts};
use crate::util::prompt::YesOrNo;
use vstd::prelude::*;
use vstd::string::*;

verus! {

/// Why the base project could not be generated.
#[derive(Debug)]
pub enum Error {
    GitInitFailed(String),
    TemplatePackResolveFailed(String),
    ProcessingFailed { src: PathParts, dest: PathParts, cause: String },
    PromptFailed(String),
    OverwriteFilePermissionDenied,
}

impl Error {
    pub open spec fn reported(&self) -> ReportView {
        match self {
            Error::GitInitFailed(err) => ReportView {
                label: Label::Error,
                msg: "Failed to initialize git"@,
                details: err@,
            },
            Error::TemplatePackResolveFailed(err) => ReportView {
                label: Label::Error,
                msg: "Failed to resolve template pack"@,
                details: err@,
            },
            Error::ProcessingFailed { src, dest, cause } => ReportView {
                label: Label::Error,
                msg: "Base project template processing from src "@ + debug_text(
                    path_text(src@),
                ) + " to dest "@ + debug_text(path_text(dest@)) + " failed"@,
                details: cause@,
            },
            Error::PromptFailed(err) => ReportView {
                label: Label::Error,
                msg: "Failed to prompt to for permission to overwrite project files"@,
                details: err@,
            },
            Error::OverwriteFilePermissionDenied => ReportView {
                label: Label::Error,
                msg: "Failed to get persmission to overwrite project files"@,
                details: Seq::<char>::empty(),
            },
        }
    }

    pub fn report(&self) -> (r: Report)
        ensures
            r@ == self.reported(),
    {
        match self {
            Error::GitInitFailed(err) => Report::error(
                "Failed to initialize git".to_owned(),
                err.clone(),
            ),
            Error::TemplatePackResolveFailed(err) => Report::error(
                "Failed to resolve template pack".to_owned(),
                err.clone(),
            ),
            Error::ProcessingFailed { src, dest, cause } => Report::error(
                "Base project template processing from src ".to_owned().concat(
                    debug_str(src.to_string().as_str()).as_str(),
                ).concat(" to dest ").concat(debug_str(dest.to_string().as_str()).as_str()).concat(
                    " failed",
                ),
                cause.clone(),
            ),
            Error::PromptFailed(err) => Report::error(
                "Failed to prompt to for permission to overwrite project files".to_owned(),
                err.clone(),
            ),
            Error::OverwriteFilePermissionDenied => Report::error(
                "Failed to get persmission to overwrite project files".to_owned(),
                String::new(),
            ),
        }
    }
}

/// Where the last dot of `name` stands that parts a stem from an
/// extension: a dot in front of the whole name parts nothing.
pub open spec fn last_dot(name: Seq<char>) -> Option<int>
    decreases name.len(),
{
    if name.len() <= 1 {
        None
    } else if name.last() == '.' {
        Some(name.len() - 1)
    } else {
        last_dot(name.drop_last())
    }
}

/// The extension of a file name: what follows its last dot
/// (`Path::extension`). The name `..` has none.
pub open spec fn extension_of(name: Seq<char>) -> Option<Seq<char>> {
    if name == seq!['.', '.'] {
        None
    } else {
        match last_dot(name) {
            Some(i) => Some(name.skip(i + 1)),
            None => None,
        }
    }
}

/// The stem of a file name: what stands before its last dot, or the
/// whole name where no dot parts it (`Path::file_stem`).
pub open spec fn stem_of(name: Seq<char>) -> Seq<char> {
    match last_dot(name) {
        Some(i) => name.take(i),
        None => name,
    }
}

/// Where the last dot of `name` stands that parts a stem from an
/// extension.
pub fn find_last_dot(name: &Vec<char>) -> (r: Option<usize>)
    ensures
        match r {
            Some(i) => last_dot(name@) == Some(i as int) && 0 < i < name.len(),
            None => last_dot(name@) is None,
        },
{
    let mut n: usize = name.len();
    proof {
        assert(name@.take(n as int) =~= name@);
    }
    while n > 1
        invariant
            n <= name.len(),
            last_dot(name@) == last_dot(name@.take(n as int)),
        decreases n,
    {
        proof {
            assert(name@.take(n as int).drop_last() =~= name@.take(n - 1));
        }
        if name[n - 1] == '.' {
            return Some(n - 1);
        }
        n -= 1;
    }
    None
}

/// The place that a file of a template pack is written to. A template,
/// which ends in `.hbs`, goes to the file of its stem, all directories
/// left out; any other file goes to its own place.
pub open spec fn overwrite_target(path: Seq<PartView>) -> Seq<PartView> {
    if path.len() > 0 && path.last() is Name && path.last()->Name_0 != seq!['.', '.']
        && extension_of(path.last()->Name_0) == Some("hbs"@) {
        seq![PartView::Name(stem_of(path.last()->Name_0))]
    } else {
        path
    }
}

pub fn overwrite_target_of(path: &PathParts) -> (r: PathParts)
    ensures
        r@ == overwrite_target(path@),
{
    let name = match path.file_name() {
        Some(name) => name,
        None => {
            proof {
                reveal_strlit("..");
                assert(".."@ =~= seq!['.', '.']);
            }
            return path.copy();
        },
    };
    proof {
        reveal_strlit("..");
        assert(".."@ =~= seq!['.', '.']);
    }
    let chars = chars_of(name.as_str());
    match find_last_dot(&chars) {
        Some(i) => {
            let extension = string_of(&chars, i + 1, chars.len());
            if extension.as_str().eq("hbs") {
                let mut r = PathParts::new();
                r.push(Part::Name(string_of(&chars, 0, i)));
                r
            } else {
                path.copy()
            }
        },
        None => path.copy(),
    }
}

/// Of the first `upto` of `entries`, files of a template pack, the
/// places they are written to at which `disk` has something other than a
/// directory, in the order of the entries.
pub open spec fn overwritten(entries: Seq<PathParts>, disk: &Disk, upto: int) -> Seq<
    Seq<PartView>,
>
    decreases upto,
{
    if upto <= 0 {
        Seq::<Seq<PartView>>::empty()
    } else {
        let front = overwritten(entries, disk, upto - 1);
        let target = overwrite_target(entries[upto - 1]@);
        if disk.something_at(target) && !disk.dir_at(target) {
            front.push(target)
        } else {
            front
        }
    }
}

/// The views of a list of paths.
pub open spec fn paths_view(paths: Seq<PathParts>) -> Seq<Seq<PartView>> {
    paths.map_values(|p: PathParts| p@)
}

/// The files that generating the project would overwrite.
pub fn to_overwrite(entries: &Vec<PathParts>, disk: &Disk) -> (r: Vec<PathParts>)
    ensures
        paths_view(r@) == overwritten(entries@, disk, entries.len() as int),
{
    let mut found: Vec<PathParts> = Vec::new();
    let mut k: usize = 0;
    while k < entries.len()
        invariant
            k <= entries.len(),
            paths_view(found@) == overwritten(entries@, disk, k as int),
        decreases entries.len() - k,
    {
        let target = overwrite_target_of(&entries[k]);
        if disk.has(&target) && !disk.is_dir(&target) {
            found.push(target);
        }
        k += 1;
    }
    found
}

/// Whether the project may be generated over the files of an earlier
/// one. `answer` is what the user said when asked, with yes offered as
/// the default; no answer counts as no.
pub fn overwrite_allowed(answer: Option<YesOrNo>) -> (r: Result<(), Error>)
    ensures
        r is Ok <==> answer == Some(YesOrNo::Yes),
        r matches Err(e) ==> e is OverwriteFilePermissionDenied,
{
    let answer = match answer {
        Some(answer) => answer,
        None => YesOrNo::No,
    };
    if answer.no() {
        Err(Error::OverwriteFilePermissionDenied)
    } else {
        Ok(())
    }
}

/// Whether the user has to be asked before a template pack is written:
/// only the first time a project is set up, and only if files would be
/// overwritten.
pub fn gen(dot_first_init_exists: bool, to_overwrite: &Vec<PathParts>) -> (r: bool)
    ensures
        r == (dot_first_init_exists && to_overwrite.len() > 0),
{
    dot_first_init_exists && to_overwrite.len() > 0
}

} // verus!
