//! The configuration file as it is written, and where it is found.

use super::app;
use crate::android;
use crate::apple;
use crate::text::{debug_str, debug_text};
use crate::util::cli::{Label, Report, ReportView};
use crate::util::disk::Disk;
use crate::util::path::{path_text, Part, PartView, PathParts};
use vstd::prelude::*;
use vstd::string::*;

verus! {

/// Why the user could not be asked for a configuration.
#[derive(Debug)]
pub enum PromptError {
    /// The questions about the app failed; the text says why.
    AppFailed(String),
    AppleFailed(apple::config::PromptError),
}

impl PromptError {
    pub open spec fn reported(&self) -> ReportView {
        match self {
            PromptError::AppFailed(err) => ReportView {
                label: Label::Error,
                msg: "Failed to prompt for `"@ + "app"@ + "` config"@,
                details: err@,
            },
            PromptError::AppleFailed(err) => ReportView {
                label: Label::Error,
                msg: "Failed to prompt for `"@ + "apple"@ + "` config"@,
                details: err.message(),
            },
        }
    }

    pub fn report(&self) -> (r: Report)
        ensures
            r@ == self.reported(),
    {
        match self {
            PromptError::AppFailed(err) => Report::error(
                "Failed to prompt for `".to_owned().concat(app::KEY).concat("` config"),
                err.clone(),
            ),
            PromptError::AppleFailed(err) => Report::error(
                "Failed to prompt for `".to_owned().concat(apple::NAME).concat("` config"),
                err.to_string(),
            ),
        }
    }
}

/// Why no configuration could be found by itself.
#[derive(Debug)]
pub enum DetectError {
    /// The app could not be made out; the text says why.
    AppFailed(String),
    AppleFailed(apple::config::DetectError),
}

impl DetectError {
    pub open spec fn reported(&self) -> ReportView {
        match self {
            DetectError::AppFailed(err) => ReportView {
                label: Label::Error,
                msg: "Failed to detect `"@ + "app"@ + "` config"@,
                details: err@,
            },
            DetectError::AppleFailed(err) => ReportView {
                label: Label::Error,
                msg: "Failed to detect `"@ + "apple"@ + "` config"@,
                details: err.message(),
            },
        }
    }

    pub fn report(&self) -> (r: Report)
        ensures
            r@ == self.reported(),
    {
        match self {
            DetectError::AppFailed(err) => Report::error(
                "Failed to detect `".to_owned().concat(app::KEY).concat("` config"),
                err.clone(),
            ),
            DetectError::AppleFailed(err) => Report::error(
                "Failed to detect `".to_owned().concat(apple::NAME).concat("` config"),
                err.to_string(),
            ),
        }
    }
}

/// Why the configuration file could not be loaded.
#[derive(Debug)]
pub enum LoadError {
    DiscoverFailed(String),
    ReadFailed { path: PathParts, cause: String },
    ParseFailed { path: PathParts, cause: String },
}

impl LoadError {
    /// The sentence that describes the error.
    pub open spec fn message(&self) -> Seq<char> {
        match self {
            LoadError::DiscoverFailed(err) => {
                "Failed to canonicalize path while searching for config file: "@ + err@
            },
            LoadError::ReadFailed { path, cause } => {
                "Failed to read config file at "@ + debug_text(path_text(path@)) + ": "@ + cause@
            },
            LoadError::ParseFailed { path, cause } => {
                "Failed to parse config file at "@ + debug_text(path_text(path@)) + ": "@
                    + cause@
            },
        }
    }

    pub fn to_string(&self) -> (r: String)
        ensures
            r@ == self.message(),
    {
        match self {
            LoadError::DiscoverFailed(err) => {
                "Failed to canonicalize path while searching for config file: ".to_owned().concat(
                    err.as_str(),
                )
            },
            LoadError::ReadFailed { path, cause } => {
                "Failed to read config file at ".to_owned().concat(
                    debug_str(path.to_string().as_str()).as_str(),
                ).concat(": ").concat(cause.as_str())
            },
            LoadError::ParseFailed { path, cause } => {
                "Failed to parse config file at ".to_owned().concat(
                    debug_str(path.to_string().as_str()).as_str(),
                ).concat(": ").concat(cause.as_str())
            },
        }
    }
}

/// Why the configuration file could not be written.
#[derive(Debug)]
pub enum WriteError {
    SerializeFailed(String),
    WriteFailed(String),
}

impl WriteError {
    pub open spec fn reported(&self) -> ReportView {
        match self {
            WriteError::SerializeFailed(err) => ReportView {
                label: Label::Error,
                msg: "Failed to serialize config"@,
                details: err@,
            },
            WriteError::WriteFailed(err) => ReportView {
                label: Label::Error,
                msg: "Failed to write config"@,
                details: err@,
            },
        }
    }

    pub fn report(&self) -> (r: Report)
        ensures
            r@ == self.reported(),
    {
        match self {
            WriteError::SerializeFailed(err) => Report::error(
                "Failed to serialize config".to_owned(),
                err.clone(),
            ),
            WriteError::WriteFailed(err) => Report::error(
                "Failed to write config".to_owned(),
                err.clone(),
            ),
        }
    }
}

/// The configuration file as it is written.
#[derive(Debug)]
pub struct Raw {
    pub app: app::Raw,
    pub apple: Option<apple::config::Raw>,
    pub android: Option<android::config::Raw>,
}

/// The directory that holds the configuration file: the nearest one, from
/// `cwd` upwards, in which `disk` has something under the file's name.
pub open spec fn discovered(cwd: Seq<PartView>, disk: &Disk) -> Option<Seq<PartView>>
    decreases cwd.len(),
{
    if disk.something_at(cwd.push(PartView::Name("mobile.toml"@))) {
        Some(cwd)
    } else if cwd.len() > 0 && cwd.last() is Name {
        discovered(cwd.drop_last(), disk)
    } else {
        None
    }
}

impl Raw {
    /// The configuration that a prompt or a detection has filled in: the
    /// app and the Apple table, nothing for Android.
    pub fn new(app: app::Raw, apple: apple::config::Raw) -> (r: Self)
        ensures
            r.app == app,
            r.apple == Some(apple),
            r.android is None,
    {
        Self { app, apple: Some(apple), android: None }
    }

    /// Looks for the configuration file in `cwd`, the working directory
    /// with its links resolved, and in the directories above it.
    pub fn discover_root(cwd: &PathParts, disk: &Disk) -> (r: Option<PathParts>)
        ensures
            crate::view::opt_view(r) == discovered(cwd@, disk),
    {
        let file_name = super::file_name();
        let mut n: usize = cwd.len();
        proof {
            assert(cwd@.take(n as int) =~= cwd@);
        }
        loop
            invariant
                n <= cwd@.len(),
                file_name@ == "mobile.toml"@,
                discovered(cwd@, disk) == discovered(cwd@.take(n as int), disk),
            decreases n,
        {
            let dir = cwd.take(n);
            if disk.has(&dir.join_name(file_name.as_str())) {
                return Some(dir);
            }
            proof {
                if n > 0 {
                    assert(cwd@.take(n as int).drop_last() =~= cwd@.take(n - 1));
                }
            }
            if n == 0 {
                return None;
            }
            match &cwd.parts[n - 1] {
                Part::Name(_) => {
                    n -= 1;
                },
                _ => {
                    return None;
                },
            }
        }
    }

    /// The path of the configuration file under `root_dir`.
    pub fn path(root_dir: &PathParts) -> (r: PathParts)
        ensures
            r@ == root_dir@.push(PartView::Name("mobile.toml"@)),
    {
        root_dir.join_name(super::file_name().as_str())
    }
}

} // verus!
