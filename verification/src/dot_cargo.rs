//! The configuration of cargo that the tool writes into a project.

use crate::config::app::App;
use crate::text::{debug_str, debug_text};
use crate::util::cli::{Label, Report, ReportView};
use crate::util::disk::Disk;
use crate::util::path::{joined, path_text, slashed, PartView, PathParts};
use vstd::prelude::*;
use vstd::string::*;

verus! {

/// Why the configuration of cargo could not be loaded.
#[derive(Debug)]
pub enum LoadError {
    DirCreationFailed { path: PathParts, cause: String },
    MigrateFailed { from: PathParts, to: PathParts, cause: String },
    ReadFailed { path: PathParts, cause: String },
    DeserializeFailed { path: PathParts, cause: String },
}

impl LoadError {
    pub open spec fn reported(&self) -> ReportView {
        match self {
            LoadError::DirCreationFailed { path, cause } => ReportView {
                label: Label::Error,
                msg: "Failed to create \".cargo\" directory at "@ + debug_text(path_text(path@)),
                details: cause@,
            },
            LoadError::MigrateFailed { from, to, cause } => ReportView {
                label: Label::Error,
                msg: "Failed to rename cargo config from old style "@ + debug_text(
                    path_text(from@),
                ) + " to new style "@ + debug_text(path_text(to@)),
                details: cause@,
            },
            LoadError::ReadFailed { path, cause } => ReportView {
                label: Label::Error,
                msg: "Failed to read cargo config from "@ + debug_text(path_text(path@)),
                details: cause@,
            },
            LoadError::DeserializeFailed { path, cause } => ReportView {
                label: Label::Error,
                msg: "Failed to deserialize cargo config at "@ + debug_text(path_text(path@)),
                details: cause@,
            },
        }
    }

    pub fn report(&self) -> (r: Report)
        ensures
            r@ == self.reported(),
    {
        match self {
            LoadError::DirCreationFailed { path, cause } => Report::error(
                "Failed to create \".cargo\" directory at ".to_owned().concat(
                    debug_str(path.to_string().as_str()).as_str(),
                ),
                cause.clone(),
            ),
            LoadError::MigrateFailed { from, to, cause } => Report::error(
                "Failed to rename cargo config from old style ".to_owned().concat(
                    debug_str(from.to_string().as_str()).as_str(),
                ).concat(" to new style ").concat(debug_str(to.to_string().as_str()).as_str()),
                cause.clone(),
            ),
            LoadError::ReadFailed { path, cause } => Report::error(
                "Failed to read cargo config from ".to_owned().concat(
                    debug_str(path.to_string().as_str()).as_str(),
                ),
                cause.clone(),
            ),
            LoadError::DeserializeFailed { path, cause } => Report::error(
                "Failed to deserialize cargo config at ".to_owned().concat(
                    debug_str(path.to_string().as_str()).as_str(),
                ),
                cause.clone(),
            ),
        }
    }
}

/// Why the configuration of cargo could not be written.
#[derive(Debug)]
pub enum WriteError {
    SerializeFailed(String),
    DirCreationFailed { path: PathParts, cause: String },
    WriteFailed { path: PathParts, cause: String },
}

impl WriteError {
    pub open spec fn reported(&self) -> ReportView {
        match self {
            WriteError::SerializeFailed(err) => ReportView {
                label: Label::Error,
                msg: "Failed to serialize cargo config"@,
                details: err@,
            },
            WriteError::DirCreationFailed { path, cause } => ReportView {
                label: Label::Error,
                msg: "Failed to create \".cargo\" directory at "@ + debug_text(path_text(path@)),
                details: cause@,
            },
            WriteError::WriteFailed { path, cause } => ReportView {
                label: Label::Error,
                msg: "Failed to write cargo config to "@ + debug_text(path_text(path@)),
                details: cause@,
            },
        }
    }

    pub fn report(&self) -> (r: Report)
        ensures
            r@ == self.reported(),
    {
        match self {
            WriteError::SerializeFailed(err) => Report::error(
                "Failed to serialize cargo config".to_owned(),
                err.clone(),
            ),
            WriteError::DirCreationFailed { path, cause } => Report::error(
                "Failed to create \".cargo\" directory at ".to_owned().concat(
                    debug_str(path.to_string().as_str()).as_str(),
                ),
                cause.clone(),
            ),
            WriteError::WriteFailed { path, cause } => Report::error(
                "Failed to write cargo config to ".to_owned().concat(
                    debug_str(path.to_string().as_str()).as_str(),
                ),
                cause.clone(),
            ),
        }
    }
}

/// The table `build` of cargo's configuration.
#[derive(Debug)]
pub struct DotCargoBuild {
    pub target: String,
}

impl DotCargoBuild {
    pub fn new(target: String) -> (r: Self)
        ensures
            r.target == target,
    {
        Self { target }
    }
}

/// What cargo's configuration says of one target.
#[derive(Debug)]
pub struct DotCargoTarget {
    pub ar: Option<String>,
    pub linker: Option<String>,
    pub rustflags: Vec<String>,
}

impl Default for DotCargoTarget {
    fn default() -> (r: Self)
        ensures
            r.ar is None,
            r.linker is None,
            r.rustflags.len() == 0,
    {
        Self { ar: None, linker: None, rustflags: Vec::new() }
    }
}

impl DotCargoTarget {
    /// Whether the target says nothing.
    pub open spec fn empty(&self) -> bool {
        self.ar is None && self.linker is None && self.rustflags.len() == 0
    }

    pub fn is_empty(&self) -> (r: bool)
        ensures
            r == self.empty(),
    {
        self.ar.is_none() && self.linker.is_none() && self.rustflags.len() == 0
    }
}

/// Cargo's configuration, as far as the tool writes it. No target is
/// named twice.
#[derive(Debug)]
pub struct DotCargo {
    pub build: Option<DotCargoBuild>,
    pub target: Vec<(String, DotCargoTarget)>,
}

/// The place of the target called `name` among the first `upto`, if it
/// is there.
pub open spec fn target_index(targets: Seq<(String, DotCargoTarget)>, name: Seq<char>, upto: int)
    -> Option<int>
    decreases upto,
{
    if upto <= 0 || upto > targets.len() {
        None
    } else if targets[upto - 1].0@ == name {
        Some(upto - 1)
    } else {
        target_index(targets, name, upto - 1)
    }
}

/// No two targets have one name.
pub open spec fn names_distinct(targets: Seq<(String, DotCargoTarget)>) -> bool {
    forall|i: int, j: int| 0 <= i < j < targets.len() ==> targets[i].0@ != targets[j].0@
}

/// The directory of cargo's configuration in an app.
pub open spec fn dot_cargo_dir(app: &App) -> Seq<PartView> {
    joined(app.root_dir@, slashed(".cargo"@))
}

/// What loading cargo's configuration has to do.
#[derive(Debug)]
pub struct LoadPlan {
    /// The directory that must be there.
    pub dir: PathParts,
    /// The file that is read.
    pub path: PathParts,
    /// The file of the old name, if it has to be renamed first.
    pub migrate_from: Option<PathParts>,
    /// Whether there is a file to read; if not, the configuration starts
    /// empty.
    pub read: bool,
}

impl DotCargo {
    pub fn new() -> (r: Self)
        ensures
            r.build is None,
            r.target.len() == 0,
    {
        Self { build: None, target: Vec::new() }
    }

    /// Whether the configuration names no target twice.
    pub open spec fn wf(&self) -> bool {
        names_distinct(self.target@)
    }

    /// The directory of the configuration and the file in it.
    pub fn create_dir_and_get_path(app: &App) -> (r: (PathParts, PathParts))
        ensures
            r.0@ == dot_cargo_dir(app),
            r.1@ == dot_cargo_dir(app).push(PartView::Name("config.toml"@)),
    {
        let dir = app.prefix_path(&PathParts::from_slashed(".cargo"));
        let path = dir.join_name("config.toml");
        (dir, path)
    }

    /// What loading the configuration has to do, by what `disk` has: a
    /// file of the old name `config` is renamed first; then the file is
    /// read if it is there, either before or by the renaming.
    pub fn load(app: &App, disk: &Disk) -> (r: LoadPlan)
        ensures
            r.dir@ == dot_cargo_dir(app),
            r.path@ == dot_cargo_dir(app).push(PartView::Name("config.toml"@)),
            ({
                let old_style = dot_cargo_dir(app).push(PartView::Name("config"@));
                &&& match r.migrate_from {
                    Some(from) => disk.file_at(old_style) && from@ == old_style,
                    None => !disk.file_at(old_style),
                }
                &&& r.read == (disk.file_at(old_style) || disk.file_at(r.path@))
            }),
    {
        let (dir, path) = Self::create_dir_and_get_path(app);
        let old_style = dir.join_name("config");
        let migrate = disk.is_file(&old_style);
        let read = migrate || disk.is_file(&path);
        LoadPlan {
            dir,
            path,
            migrate_from: if migrate {
                Some(old_style)
            } else {
                None
            },
            read,
        }
    }

    pub fn set_default_target(&mut self, target: String)
        ensures
            final(self).build matches Some(build) && build.target == target,
            final(self).target == old(self).target,
    {
        self.build = Some(DotCargoBuild::new(target));
    }

    /// Sets what the configuration says of the target `name`. A target
    /// that says nothing is not written down, and what was said of the
    /// name before stays.
    pub fn insert_target(&mut self, name: String, target: DotCargoTarget)
        requires
            old(self).wf(),
        ensures
            final(self).wf(),
            final(self).build == old(self).build,
            target.empty() ==> final(self).target == old(self).target,
            !target.empty() ==> match target_index(
                old(self).target@,
                name@,
                old(self).target.len() as int,
            ) {
                Some(i) => final(self).target@ == old(self).target@.update(i, (name, target)),
                None => final(self).target@ == old(self).target@.push((name, target)),
            },
    {
        if target.is_empty() {
            return ;
        }
        let mut i: usize = self.target.len();
        while i > 0
            invariant
                i <= self.target.len(),
                *self == *old(self),
                self.wf(),
                !target.empty(),
                target_index(self.target@, name@, self.target.len() as int) == target_index(
                    self.target@,
                    name@,
                    i as int,
                ),
            decreases i,
        {
            if self.target[i - 1].0.as_str().eq(name.as_str()) {
                let ghost before = self.target@;
                self.target.set(i - 1, (name, target));
                return ;
            }
            i -= 1;
        }
        let ghost before = self.target@;
        self.target.push((name, target));
        proof {
            assert forall|a: int, b: int| 0 <= a < b < self.target.len() implies self.target[a].0@
                != self.target[b].0@ by {
                if b < before.len() {
                } else {
                    lemma_absent(before, name@, before.len() as int, a);
                }
            }
        }
    }
}

/// A name that has no place among the first `upto` targets is the name
/// of none of them.
proof fn lemma_absent(targets: Seq<(String, DotCargoTarget)>, name: Seq<char>, upto: int, at: int)
    requires
        0 <= at < upto <= targets.len(),
        target_index(targets, name, upto) is None,
    ensures
        targets[at].0@ != name,
    decreases upto,
{
    if at < upto - 1 {
        lemma_absent(targets, name, upto - 1, at);
    }
}

} // verus!
