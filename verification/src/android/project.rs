//! The Android Studio project that the tool generates.

use super::config::{Config, Metadata};
use crate::os::Host;
use crate::text::{debug_str, debug_text};
use crate::util::cli::{Label, Report, ReportView};
use crate::util::ln::has_file_name;
use crate::util::path::{
    absolute, joined, path_text, relativize_path, relativized, slashed, well_formed, PartView,
    PathParts,
};
use vstd::prelude::*;
use vstd::string::*;

verus! {

/// The name of the template pack of the project.
pub const TEMPLATE_PACK: &'static str = "android-studio";

/// Why the project could not be generated.
#[derive(Debug)]
pub enum Error {
    RustupFailed(String),
    MissingPack(String),
    TemplateProcessingFailed(String),
    DirectoryCreationFailed { path: PathParts, cause: String },
    AssetDirSymlinkFailed(String),
    DotCargoGenFailed(super::ndk::MissingToolError),
    FileCopyFailed { src: PathParts, dest: PathParts, cause: String },
    AssetSourceInvalid(PathParts),
}

impl Error {
    pub open spec fn reported(&self) -> ReportView {
        match self {
            Error::RustupFailed(err) => ReportView {
                label: Label::Error,
                msg: "Failed to `rustup` Android toolchains"@,
                details: err@,
            },
            Error::MissingPack(err) => ReportView {
                label: Label::Error,
                msg: "Failed to locate Android template pack"@,
                details: err@,
            },
            Error::TemplateProcessingFailed(err) => ReportView {
                label: Label::Error,
                msg: "Android template processing failed"@,
                details: err@,
            },
            Error::DirectoryCreationFailed { path, cause } => ReportView {
                label: Label::Error,
                msg: "Failed to create Android assets directory at "@ + debug_text(
                    path_text(path@),
                ),
                details: cause@,
            },
            Error::AssetDirSymlinkFailed(err) => ReportView {
                label: Label::Error,
                msg: "Asset dir couldn't be symlinked into Android project"@,
                details: err@,
            },
            Error::DotCargoGenFailed(err) => ReportView {
                label: Label::Error,
                msg: "Failed to generate Android cargo config"@,
                details: err@.message(),
            },
            Error::FileCopyFailed { src, dest, cause } => ReportView {
                label: Label::Error,
                msg: "Failed to copy file at "@ + debug_text(path_text(src@)) + " to "@
                    + debug_text(path_text(dest@)),
                details: cause@,
            },
            Error::AssetSourceInvalid(src) => ReportView {
                label: Label::Error,
                msg: "Asset source at "@ + debug_text(path_text(src@)) + " invalid"@,
                details: "Asset sources must be either a directory or a file"@,
            },
        }
    }

    pub fn report(&self) -> (r: Report)
        ensures
            r@ == self.reported(),
    {
        match self {
            Error::RustupFailed(err) => Report::error(
                "Failed to `rustup` Android toolchains".to_owned(),
                err.clone(),
            ),
            Error::MissingPack(err) => Report::error(
                "Failed to locate Android template pack".to_owned(),
                err.clone(),
            ),
            Error::TemplateProcessingFailed(err) => Report::error(
                "Android template processing failed".to_owned(),
                err.clone(),
            ),
            Error::DirectoryCreationFailed { path, cause } => Report::error(
                "Failed to create Android assets directory at ".to_owned().concat(
                    debug_str(path.to_string().as_str()).as_str(),
                ),
                cause.clone(),
            ),
            Error::AssetDirSymlinkFailed(err) => Report::error(
                "Asset dir couldn't be symlinked into Android project".to_owned(),
                err.clone(),
            ),
            Error::DotCargoGenFailed(err) => Report::error(
                "Failed to generate Android cargo config".to_owned(),
                err.to_string(),
            ),
            Error::FileCopyFailed { src, dest, cause } => Report::error(
                "Failed to copy file at ".to_owned().concat(
                    debug_str(src.to_string().as_str()).as_str(),
                ).concat(" to ").concat(debug_str(dest.to_string().as_str()).as_str()),
                cause.clone(),
            ),
            Error::AssetSourceInvalid(src) => Report::error(
                "Asset source at ".to_owned().concat(
                    debug_str(src.to_string().as_str()).as_str(),
                ).concat(" invalid"),
                "Asset sources must be either a directory or a file".to_owned(),
            ),
        }
    }
}

/// One file to copy into the project.
#[derive(Debug)]
pub struct Copy {
    pub src: PathParts,
    pub dest: PathParts,
}

/// Where the source `source`, named as seen from the app's root, comes
/// from.
pub open spec fn source_src(config: &Config, source: Seq<char>) -> Seq<PartView> {
    joined(config.app.root_dir@, slashed(source))
}

/// The directory of the project into which sources are copied.
pub open spec fn source_dest(config: &Config) -> Seq<PartView> {
    config.project_path().push(PartView::Name("app"@))
}

/// Where the assets of the app are linked into the project.
pub open spec fn assets_path(config: &Config) -> Seq<PartView> {
    joined(config.project_path(), slashed("app/src/main/assets/"@))
}

/// The root of the app as seen from the project.
pub fn root_dir_rel(config: &Config, host: Host) -> (r: PathParts)
    requires
        well_formed(config.app.root_dir@),
        absolute(config.app.root_dir@, host),
        absolute(config.project_path(), host),
        host.windows() ==> config.app.root_dir@[0] == config.project_path()[0]
            && config.app.root_dir@.len() <= config.project_path().len(),
    ensures
        r@ == relativized(config.app.root_dir@, config.project_path(), host),
{
    relativize_path(config.app().root_dir(), &config.project_dir(), host)
}

/// The copy that brings the source `source` into the project, under its
/// own name.
pub open spec fn copy_of(config: &Config, source: Seq<char>) -> (Seq<PartView>, Seq<PartView>) {
    (source_src(config, source), source_dest(config).push(source_src(config, source).last()))
}

/// The first `upto` of `copies` are the copies of the first `upto` of
/// `sources`, all of which have names of their own.
pub open spec fn copies_agree(config: &Config, sources: Seq<String>, copies: Seq<Copy>, upto: int)
    -> bool {
    forall|j: int|
        0 <= j < upto ==> copy_agrees(config, sources[j]@, #[trigger] copies[j])
}

/// `copy` is the copy of `source`, which has a name of its own.
pub open spec fn copy_agrees(config: &Config, source: Seq<char>, copy: Copy) -> bool {
    has_file_name(source_src(config, source)) && (copy.src@, copy.dest@) == copy_of(
        config,
        source,
    )
}

/// The sources of the app that the manifest names.
pub open spec fn sources_of(metadata: &Metadata) -> Seq<String> {
    match metadata.app_sources {
        Some(list) => list@,
        None => Seq::<String>::empty(),
    }
}

/// The first of the first `upto` sources that has no name of its own.
pub open spec fn first_unnamed(config: &Config, sources: Seq<String>, upto: int) -> Option<int>
    decreases upto,
{
    if upto <= 0 {
        None
    } else {
        match first_unnamed(config, sources, upto - 1) {
            Some(i) => Some(i),
            None => if !has_file_name(source_src(config, sources[upto - 1]@)) {
                Some(upto - 1)
            } else {
                None
            },
        }
    }
}

/// A source without a name among the first `n` is the first such among
/// any more.
proof fn lemma_first_unnamed(config: &Config, sources: Seq<String>, n: int, m: int)
    requires
        0 <= n <= m,
        first_unnamed(config, sources, n) is Some,
    ensures
        first_unnamed(config, sources, m) == first_unnamed(config, sources, n),
    decreases m - n,
{
    if n < m {
        lemma_first_unnamed(config, sources, n, m - 1);
    }
}

/// The copies that bring the app's sources into the project, each under
/// its own name. The first source that has no name of its own is the
/// error.
pub fn source_copies(config: &Config, metadata: &Metadata) -> (r: Result<Vec<Copy>, Error>)
    ensures
        match first_unnamed(config, sources_of(metadata), sources_of(metadata).len() as int) {
            None => r matches Ok(copies) && copies.len() == sources_of(metadata).len()
                && copies_agree(config, sources_of(metadata), copies@, copies.len() as int),
            Some(i) => r matches Err(Error::AssetSourceInvalid(src)) && src@ == source_src(
                config,
                sources_of(metadata)[i]@,
            ),
        },
{
    let sources = metadata.app_sources();
    let dest_dir = config.project_dir().join_name("app");
    let mut copies: Vec<Copy> = Vec::new();
    let mut i: usize = 0;
    while i < sources.len()
        invariant
            i <= sources.len(),
            sources@ == sources_of(metadata),
            dest_dir@ == source_dest(config),
            copies.len() == i,
            copies_agree(config, sources@, copies@, i as int),
            first_unnamed(config, sources@, i as int) is None,
        decreases sources.len() - i,
    {
        let src = config.app().root_dir().join_slashed(sources[i].as_str());
        let name = match src.file_name() {
            Some(name) => name,
            None => {
                proof {
                    lemma_first_unnamed(config, sources@, i + 1, sources@.len() as int);
                }
                return Err(Error::AssetSourceInvalid(src));
            },
        };
        let dest = dest_dir.join_name(name.as_str());
        copies.push(Copy { src, dest });
        i += 1;
    }
    Ok(copies)
}

/// Where the assets of the app are linked into the project.
pub fn assets_dir(config: &Config) -> (r: PathParts)
    ensures
        r@ == assets_path(config),
{
    config.project_dir().join_slashed("app/src/main/assets/")
}

/// What generating the project does besides writing the templates: the
/// files to copy, and the directory into which the assets are linked.
#[derive(Debug)]
pub struct Plan {
    pub copies: Vec<Copy>,
    pub assets_dir: PathParts,
    /// Whether the project holds code of its own.
    pub has_code: bool,
}

/// Plans the generation of the project.
pub fn gen(config: &Config, metadata: &Metadata) -> (r: Result<Plan, Error>)
    ensures
        match first_unnamed(config, sources_of(metadata), sources_of(metadata).len() as int) {
            None => {
                &&& r matches Ok(plan)
                &&& plan.assets_dir@ == assets_path(config)
                &&& plan.has_code == (metadata.project_dependencies is Some
                    || metadata.app_dependencies is Some
                    || metadata.app_dependencies_platform is Some)
                &&& plan.copies.len() == sources_of(metadata).len()
                &&& copies_agree(
                    config,
                    sources_of(metadata),
                    plan.copies@,
                    plan.copies.len() as int,
                )
            },
            Some(i) => r matches Err(Error::AssetSourceInvalid(src)) && src@ == source_src(
                config,
                sources_of(metadata)[i]@,
            ),
        },
{
    let copies = match source_copies(config, metadata) {
        Ok(copies) => copies,
        Err(e) => {
            return Err(e);
        },
    };
    Ok(Plan { copies, assets_dir: assets_dir(config), has_code: metadata.has_code() })
}

} // verus!
