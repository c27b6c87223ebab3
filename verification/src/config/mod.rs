//! The configuration of an app: what the file says, made whole and
//! checked.

pub mod app;
pub mod raw;

use self::app::App;
use self::raw::{DetectError, LoadError, PromptError, Raw, WriteError};
use crate::android;
use crate::apple;
use crate::opts::NonInteractive;
use crate::text::{debug_str, debug_text};
use crate::util::cli::{Label, Report, ReportView};
use crate::util::path::{path_text, NormalizationError, PartView, PathParts};
use vstd::prelude::*;
use vstd::string::*;

verus! {

/// The name of the tool, and of its configuration file.
pub const NAME: &'static str = "mobile";

/// The name of the configuration file.
pub fn file_name() -> (r: String)
    ensures
        r@ == "mobile.toml"@,
{
    let r = NAME.to_owned().concat(".toml");
    proof {
        reveal_strlit("mobile");
        reveal_strlit(".toml");
        reveal_strlit("mobile.toml");
    }
    r
}

/// Why what the file says is no configuration.
#[derive(Debug)]
pub enum FromRawError {
    /// The app's table will not do; the report says why.
    AppConfigInvalid(String),
    AppleConfigInvalid(apple::config::Error),
    AndroidConfigInvalid(android::config::Error),
}

impl FromRawError {
    /// What the report says of the error.
    pub open spec fn details(&self) -> Seq<char> {
        match self {
            FromRawError::AppConfigInvalid(err) => err@,
            FromRawError::AppleConfigInvalid(err) => err.details(),
            FromRawError::AndroidConfigInvalid(err) => err.message(),
        }
    }

    pub fn report(&self, msg: &str) -> (r: Report)
        ensures
            r@ == (ReportView { label: Label::Error, msg: msg@, details: self.details() }),
    {
        match self {
            FromRawError::AppConfigInvalid(err) => Report::error(msg.to_owned(), err.clone()),
            FromRawError::AppleConfigInvalid(err) => err.report(msg),
            FromRawError::AndroidConfigInvalid(err) => err.report(msg),
        }
    }
}

/// Why no configuration could be made.
#[derive(Debug)]
pub enum GenError {
    PromptFailed(PromptError),
    DetectFailed(DetectError),
    CanonicalizeFailed(String),
    FromRawFailed(FromRawError),
    WriteFailed(WriteError),
}

impl GenError {
    pub open spec fn reported(&self) -> ReportView {
        match self {
            GenError::PromptFailed(err) => err.reported(),
            GenError::DetectFailed(err) => err.reported(),
            GenError::CanonicalizeFailed(err) => ReportView {
                label: Label::Error,
                msg: "Failed to generate config"@,
                details: "Failed to canonicalize root dir: "@ + err@,
            },
            GenError::FromRawFailed(err) => ReportView {
                label: Label::Error,
                msg: "Failed to generate config"@,
                details: err.details(),
            },
            GenError::WriteFailed(err) => err.reported(),
        }
    }

    pub fn report(&self) -> (r: Report)
        ensures
            r@ == self.reported(),
    {
        match self {
            GenError::PromptFailed(err) => err.report(),
            GenError::DetectFailed(err) => err.report(),
            GenError::CanonicalizeFailed(err) => Report::error(
                "Failed to generate config".to_owned(),
                "Failed to canonicalize root dir: ".to_owned().concat(err.as_str()),
            ),
            GenError::FromRawFailed(err) => err.report("Failed to generate config"),
            GenError::WriteFailed(err) => err.report(),
        }
    }
}

/// Why the configuration could neither be loaded nor made.
#[derive(Debug)]
pub enum LoadOrGenError {
    LoadFailed(LoadError),
    FromRawFailed { path: PathParts, cause: FromRawError },
    GenFailed(GenError),
}

impl LoadOrGenError {
    pub open spec fn reported(&self) -> ReportView {
        match self {
            LoadOrGenError::LoadFailed(err) => ReportView {
                label: Label::Error,
                msg: "Failed to load config"@,
                details: err.message(),
            },
            LoadOrGenError::FromRawFailed { path, cause } => ReportView {
                label: Label::Error,
                msg: "Config file at "@ + debug_text(path_text(path@)) + " invalid"@,
                details: cause.details(),
            },
            LoadOrGenError::GenFailed(err) => err.reported(),
        }
    }

    pub fn report(&self) -> (r: Report)
        ensures
            r@ == self.reported(),
    {
        match self {
            LoadOrGenError::LoadFailed(err) => Report::error(
                "Failed to load config".to_owned(),
                err.to_string(),
            ),
            LoadOrGenError::FromRawFailed { path, cause } => {
                let msg = "Config file at ".to_owned().concat(
                    debug_str(path.to_string().as_str()).as_str(),
                ).concat(" invalid");
                cause.report(msg.as_str())
            },
            LoadOrGenError::GenFailed(err) => err.report(),
        }
    }
}

/// Where a configuration came from.
#[derive(Clone, Copy, Debug, PartialEq, Eq, Structural)]
pub enum Origin {
    FreshlyMinted,
    Loaded,
}

impl Origin {
    pub fn freshly_minted(self) -> (r: bool)
        ensures
            r == (self == Origin::FreshlyMinted),
    {
        match self {
            Origin::FreshlyMinted => true,
            Origin::Loaded => false,
        }
    }
}

/// How a configuration is got where no file is found.
#[derive(Clone, Copy, Debug, PartialEq, Eq, Structural)]
pub enum Source {
    /// The user is asked.
    Prompt,
    /// The tool makes out what it can.
    Detect,
}

/// The configuration of an app for all platforms.
#[derive(Debug)]
pub struct Config {
    pub app: App,
    pub apple: apple::config::Config,
    pub android: android::config::Config,
}

impl Config {
    /// Puts the configuration together from the app and what the file
    /// says of each platform. `apple_dir` and `android_dir` are the project
    /// directories of the two platforms, made absolute, or why that
    /// failed. The Apple table is checked first.
    pub fn from_raw(
        app: App,
        apple: Option<apple::config::Raw>,
        android: Option<android::config::Raw>,
        apple_dir: Result<PathParts, NormalizationError>,
        android_dir: Result<PathParts, NormalizationError>,
    ) -> (r: Result<Self, FromRawError>)
        ensures
            match r {
                Ok(config) => {
                    &&& config.app == app
                    &&& apple::config::config_agrees(Ok(config.apple), app, apple, apple_dir)
                    &&& android::config::config_agrees(
                        Ok(config.android),
                        app,
                        android,
                        android_dir,
                    )
                },
                Err(FromRawError::AppleConfigInvalid(e)) => apple::config::config_agrees(
                    Err(e),
                    app,
                    apple,
                    apple_dir,
                ),
                Err(FromRawError::AndroidConfigInvalid(e)) => android::config::config_agrees(
                    Err(e),
                    app,
                    android,
                    android_dir,
                ) && exists|c: apple::config::Config|
                    apple::config::config_agrees(Ok(c), app, apple, apple_dir),
                Err(FromRawError::AppConfigInvalid(_)) => false,
            },
    {
        let ghost apple_raw = apple;
        let apple = match apple::config::Config::from_raw(app.copy(), apple, apple_dir) {
            Ok(apple) => apple,
            Err(e) => {
                return Err(FromRawError::AppleConfigInvalid(e));
            },
        };
        proof {
            assert(apple::config::config_agrees(Ok(apple), app, apple_raw, apple_dir));
        }
        let android = match android::config::Config::from_raw(app.copy(), android, android_dir) {
            Ok(android) => android,
            Err(e) => {
                return Err(FromRawError::AndroidConfigInvalid(e));
            },
        };
        Ok(Self { app, apple, android })
    }

    /// How a configuration is got where no file is found: the user is
    /// asked unless the tool must not ask.
    pub fn gen(non_interactive: NonInteractive) -> (r: Source)
        ensures
            r == if non_interactive == NonInteractive::No {
                Source::Prompt
            } else {
                Source::Detect
            },
    {
        if non_interactive.no() {
            Source::Prompt
        } else {
            Source::Detect
        }
    }

    /// Where the configuration comes from: it is loaded where a file was
    /// found, else made.
    pub fn load_or_gen(found: bool) -> (r: Origin)
        ensures
            r == if found {
                Origin::Loaded
            } else {
                Origin::FreshlyMinted
            },
    {
        if found {
            Origin::Loaded
        } else {
            Origin::FreshlyMinted
        }
    }

    /// The path of the configuration file.
    pub fn path(&self) -> (r: PathParts)
        ensures
            r@ == self.app.root_dir@.push(PartView::Name("mobile.toml"@)),
    {
        self.app().root_dir().join_name(file_name().as_str())
    }

    pub fn app(&self) -> (r: &App)
        ensures
            *r == self.app,
    {
        &self.app
    }

    pub fn apple(&self) -> (r: &apple::config::Config)
        ensures
            *r == self.apple,
    {
        &self.apple
    }

    pub fn android(&self) -> (r: &android::config::Config)
        ensures
            *r == self.android,
    {
        &self.android
    }
}

} // verus!
