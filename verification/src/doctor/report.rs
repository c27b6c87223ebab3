//! The health report in its plain form: one report for each thing
//! checked, with a status and a list of bullets.

use crate::env::VarError;
use crate::os::Host;
use crate::text::{contains_str, debug_str, debug_text, has_part};
use crate::util::command::{Command, CommandView};
use crate::util::path::{path_text, PartView, PathParts};
use crate::util::pattern::{captures, first_match, named_group, pattern_names};
use crate::util::rust_version::{
    RunAndSearchError, RustVersion, RustVersionError, RustVersionView,
};
use crate::util::InstalledCommitMsgError;
use vstd::prelude::*;
use vstd::string::*;

verus! {

/// An error that stops the report itself.
#[derive(Debug)]
pub enum DoctorException {
    NoHomeDir(crate::util::path::NoHomeDir),
}

/// Something that a check found wrong.
#[derive(Debug)]
pub enum DoctorError {
    OsCheckFailed(String),
    InvalidUtf8(String),
    RegexSearchFailed { search_expr: String, details: String },
    VarError(VarError),
    CommandSearchFailed(RunAndSearchError),
    RustVersionFailed(RustVersionError),
    RustVersionInvalid { version: RustVersion },
    InstalledCommitMsgFailed(InstalledCommitMsgError),
    MiscError { error: String },
}

impl DoctorError {
    /// The sentence that describes the error.
    pub open spec fn message(&self) -> Seq<char> {
        match self {
            DoctorError::OsCheckFailed(_) => "Failed to check installed macOS version"@,
            DoctorError::InvalidUtf8(err) => "Output contained invalid UTF-8: "@ + err@,
            DoctorError::RegexSearchFailed { search_expr, details } => {
                "Unable to find: "@ + debug_text(search_expr@) + " in "@ + debug_text(details@)
            },
            DoctorError::VarError(_) => "Environment variable not set."@,
            DoctorError::CommandSearchFailed(err) => err@.message(),
            DoctorError::RustVersionFailed(_) => "Failed to check Rust version"@,
            DoctorError::RustVersionInvalid { version } => {
                "iOS linking is broken on Rust versions later than 1.45.2 (d3fb005a3 2020-07-31) and earlier than 1.49.0-nightly (ffa2e7ae8 2020-10-24), but you're on "@
                    + version@.text()
                    + "!\n    - Until this is resolved by Rust 1.49.0, please do one of the following:\n        A) downgrade to 1.45.2:\n           `rustup install stable-2020-08-03 && rustup default stable-2020-08-03`\n        B) update to a recent nightly:\n           `rustup update nightly && rustup default nightly`"@
            },
            DoctorError::InstalledCommitMsgFailed(_) => "Commit message error"@,
            DoctorError::MiscError { .. } => "Unknown Error"@,
        }
    }

    pub fn to_string(&self) -> (r: String)
        ensures
            r@ == self.message(),
    {
        match self {
            DoctorError::OsCheckFailed(_) => "Failed to check installed macOS version".to_owned(),
            DoctorError::InvalidUtf8(err) => {
                "Output contained invalid UTF-8: ".to_owned().concat(err.as_str())
            },
            DoctorError::RegexSearchFailed { search_expr, details } => {
                "Unable to find: ".to_owned().concat(
                    debug_str(search_expr.as_str()).as_str(),
                ).concat(" in ").concat(debug_str(details.as_str()).as_str())
            },
            DoctorError::VarError(_) => "Environment variable not set.".to_owned(),
            DoctorError::CommandSearchFailed(err) => err.to_string(),
            DoctorError::RustVersionFailed(_) => "Failed to check Rust version".to_owned(),
            DoctorError::RustVersionInvalid { version } => {
                "iOS linking is broken on Rust versions later than 1.45.2 (d3fb005a3 2020-07-31) and earlier than 1.49.0-nightly (ffa2e7ae8 2020-10-24), but you're on ".to_owned().concat(
                    version.to_string().as_str(),
                ).concat(
                    "!\n    - Until this is resolved by Rust 1.49.0, please do one of the following:\n        A) downgrade to 1.45.2:\n           `rustup install stable-2020-08-03 && rustup default stable-2020-08-03`\n        B) update to a recent nightly:\n           `rustup update nightly && rustup default nightly`",
                )
            },
            DoctorError::InstalledCommitMsgFailed(_) => "Commit message error".to_owned(),
            DoctorError::MiscError { .. } => "Unknown Error".to_owned(),
        }
    }
}

/// One line of a report.
#[derive(Debug)]
pub enum ReportBullet {
    Success { bullet: String },
    Warning { bullet: String },
    Failure { error: DoctorError },
}

pub fn fail_bullet(error: DoctorError) -> (r: ReportBullet)
    ensures
        r == (ReportBullet::Failure { error }),
{
    ReportBullet::Failure { error }
}

pub fn warn_bullet(bullet: String) -> (r: ReportBullet)
    ensures
        r == (ReportBullet::Warning { bullet }),
{
    ReportBullet::Warning { bullet }
}

pub fn success_bullet(bullet: String) -> (r: ReportBullet)
    ensures
        r == (ReportBullet::Success { bullet }),
{
    ReportBullet::Success { bullet }
}

/// The bullet that the result of a command stands for.
pub fn report_bullet(command_result: Result<String, DoctorError>) -> (r: ReportBullet)
    ensures
        r == match command_result {
            Ok(bullet) => ReportBullet::Success { bullet },
            Err(error) => ReportBullet::Failure { error },
        },
{
    match command_result {
        Ok(bullet) => ReportBullet::Success { bullet },
        Err(error) => ReportBullet::Failure { error },
    }
}

/// What a command printed, as a bullet shows it: without the white space
/// at its end.
pub fn command(output: &str) -> (r: String)
    ensures
        r@ == crate::text::trimmed_end(output@),
{
    crate::text::trim_end(output)
}

/// Whether a bullet of the list is a failure.
pub fn has_error(bullets: &Vec<ReportBullet>) -> (r: bool)
    ensures
        r == exists|i: int| 0 <= i < bullets.len() && bullets[i] is Failure,
{
    let mut i: usize = 0;
    while i < bullets.len()
        invariant
            i <= bullets.len(),
            forall|j: int| 0 <= j < i ==> !(bullets[j] is Failure),
        decreases bullets.len() - i,
    {
        match &bullets[i] {
            ReportBullet::Failure { .. } => {
                return true;
            },
            _ => {},
        }
        i += 1;
    }
    false
}

/// Whether a bullet of the list is a warning.
pub fn has_warning(bullets: &Vec<ReportBullet>) -> (r: bool)
    ensures
        r == exists|i: int| 0 <= i < bullets.len() && bullets[i] is Warning,
{
    let mut i: usize = 0;
    while i < bullets.len()
        invariant
            i <= bullets.len(),
            forall|j: int| 0 <= j < i ==> !(bullets[j] is Warning),
        decreases bullets.len() - i,
    {
        match &bullets[i] {
            ReportBullet::Warning { .. } => {
                return true;
            },
            _ => {},
        }
        i += 1;
    }
    false
}

/// How a check went.
#[derive(Clone, Copy, Debug, PartialEq, Eq, Structural)]
pub enum DoctorStatus {
    Success,
    Warning,
    Failure,
}

impl DoctorStatus {
    /// An error makes a failure, whatever else there is; a warning
    /// without an error makes a warning.
    pub open spec fn of(has_error: bool, has_warning: bool) -> Self {
        if has_error {
            DoctorStatus::Failure
        } else if has_warning {
            DoctorStatus::Warning
        } else {
            DoctorStatus::Success
        }
    }

    pub fn new(has_error: bool, has_warning: bool) -> (r: Self)
        ensures
            r == Self::of(has_error, has_warning),
    {
        match (has_error, has_warning) {
            (false, false) => DoctorStatus::Success,
            (false, true) => DoctorStatus::Warning,
            (true, _) => DoctorStatus::Failure,
        }
    }

    /// The mark in brackets that stands in front of a headline.
    pub fn get_report_symbol(self) -> (r: &'static str)
        ensures
            r@ == match self {
                DoctorStatus::Success => "[\u{e2}\u{153}\u{201d}] "@,
                DoctorStatus::Warning => "[!] "@,
                DoctorStatus::Failure => "[X] "@,
            },
    {
        match self {
            DoctorStatus::Success => "[\u{e2}\u{153}\u{201d}] ",
            DoctorStatus::Warning => "[!] ",
            DoctorStatus::Failure => "[X] ",
        }
    }
}

/// What one check found.
#[derive(Debug)]
pub struct DoctorReport {
    pub status: DoctorStatus,
    pub headline: String,
    pub bullets: Vec<ReportBullet>,
}

impl DoctorReport {
    /// The first line of the report: the mark, a blank and the headline.
    pub open spec fn first_line(&self) -> Seq<char> {
        (match self.status {
            DoctorStatus::Success => "[\u{e2}\u{153}\u{201d}] "@,
            DoctorStatus::Warning => "[!] "@,
            DoctorStatus::Failure => "[X] "@,
        }) + " "@ + self.headline@
    }

    pub fn print(&self) -> (r: String)
        ensures
            r@ == self.first_line(),
    {
        self.status.get_report_symbol().to_owned().concat(" ").concat(self.headline.as_str())
    }
}

/// All reports of a run.
#[derive(Debug)]
pub struct ReportSummary {
    pub reports: Vec<DoctorReport>,
}

impl ReportSummary {
    /// The first line of each report, in order.
    pub fn print(&self) -> (r: Vec<String>)
        ensures
            r.len() == self.reports.len(),
            forall|i: int| 0 <= i < r.len() ==> r[i]@ == self.reports[i].first_line(),
    {
        let mut lines: Vec<String> = Vec::new();
        let mut i: usize = 0;
        while i < self.reports.len()
            invariant
                i <= self.reports.len(),
                lines.len() == i,
                forall|j: int| 0 <= j < i ==> lines[j]@ == self.reports[j].first_line(),
            decreases self.reports.len() - i,
        {
            lines.push(self.reports[i].print());
            i += 1;
        }
        lines
    }
}

/// The report on the tool itself. `commit_message` is what the
/// installation says of its commits; `version` is what `cargo mobile -V`
/// printed. A missing installation directory is a failure, with two
/// warnings that say so.
pub fn check_cargo_mobile(
    install_dir: &PathParts,
    installed: bool,
    commit_message: Result<Option<String>, InstalledCommitMsgError>,
    version: Result<String, DoctorError>,
) -> (r: DoctorReport)
    ensures
        r.status == DoctorStatus::of(!installed, false),
        r.headline@ == match version {
            Ok(v) => v@,
            Err(_) => "cargo mobile"@,
        },
        r.bullets.len() == if installed {
            1nat
        } else {
            3nat
        },
        match commit_message {
            Ok(Some(msg)) => r.bullets[0] == (ReportBullet::Success { bullet: msg }),
            Ok(None) => r.bullets[0] matches ReportBullet::Success { bullet } && bullet@
                == "commit info file not found"@,
            Err(e) => r.bullets[0] == (ReportBullet::Failure {
                error: DoctorError::InstalledCommitMsgFailed(e),
            }),
        },
        !installed ==> (r.bullets[1] matches ReportBullet::Warning { bullet } && bullet@
            == "The /.cargo-mobile directory could not be found!"@) && (
        r.bullets[2] matches ReportBullet::Warning { bullet } && bullet@ == "Unable to locate at "@
            + path_text(install_dir@)),
{
    let commit = report_bullet(
        match commit_message {
            Ok(Some(msg)) => Ok(msg),
            Ok(None) => Ok("commit info file not found".to_owned()),
            Err(e) => Err(DoctorError::InstalledCommitMsgFailed(e)),
        },
    );
    let mut bullets = vec![commit];
    if !installed {
        bullets.push(
            ReportBullet::Warning {
                bullet: "The /.cargo-mobile directory could not be found!".to_owned(),
            },
        );
        bullets.push(
            ReportBullet::Warning {
                bullet: "Unable to locate at ".to_owned().concat(install_dir.to_string().as_str()),
            },
        );
    }
    DoctorReport {
        status: DoctorStatus::new(!installed, false),
        headline: match version {
            Ok(v) => v,
            Err(_) => "cargo mobile".to_owned(),
        },
        bullets,
    }
}

/// The report on the compiler.
pub fn check_rust(rust_version: Result<RustVersion, RustVersionError>, host: Host) -> (r:
    DoctorReport)
    ensures
        match rust_version {
            Ok(version) => {
                &&& r.headline@ == "rustc "@ + version@.text()
                &&& r.status == DoctorStatus::of(!version@.valid(host), false)
                &&& if version@.valid(host) {
                    r.bullets.len() == 0
                } else {
                    r.bullets.len() == 1 && r.bullets[0] == (ReportBullet::Failure {
                        error: DoctorError::RustVersionInvalid { version },
                    })
                }
            },
            Err(error) => {
                &&& r.headline@ == "rustc version could not be found."@
                &&& r.status == DoctorStatus::Failure
                &&& r.bullets.len() == 1
                &&& r.bullets[0] == (ReportBullet::Failure {
                    error: DoctorError::RustVersionFailed(error),
                })
            },
        },
{
    match rust_version {
        Ok(version) => {
            let valid = version.valid(host);
            let headline = "rustc ".to_owned().concat(version.to_string().as_str());
            DoctorReport {
                status: DoctorStatus::new(!valid, false),
                headline,
                bullets: if valid {
                    Vec::new()
                } else {
                    vec![fail_bullet(DoctorError::RustVersionInvalid { version })]
                },
            }
        },
        Err(error) => DoctorReport {
            status: DoctorStatus::new(true, false),
            headline: "rustc version could not be found.".to_owned(),
            bullets: vec![ReportBullet::Failure { error: DoctorError::RustVersionFailed(error) }],
        },
    }
}

/// The report on the operating system, which is macOS: this report is
/// made nowhere else.
pub fn check_os(macos_version: Result<String, RunAndSearchError>) -> (r: DoctorReport)
    ensures
        r.status == DoctorStatus::Success,
        r.headline@ == "Operating System: "@ + "macos"@,
        r.bullets.len() == 1,
        r.bullets[0] == match macos_version {
            Ok(version) => ReportBullet::Success { bullet: version },
            Err(error) => ReportBullet::Failure { error: DoctorError::CommandSearchFailed(error) },
        },
{
    let bullets = vec![
        match macos_version {
            Ok(version) => success_bullet(version),
            Err(error) => fail_bullet(DoctorError::CommandSearchFailed(error)),
        },
    ];
    DoctorReport {
        status: DoctorStatus::new(false, false),
        headline: "Operating System: ".to_owned().concat("macos"),
        bullets,
    }
}

/// What is known of the Apple tools.
pub struct AppleTools {
    /// What `xcodebuild -version` printed, on one line.
    pub xcode_version: Result<String, DoctorError>,
    pub xcode_select_version: Result<String, DoctorError>,
    pub ios_deploy_version: Result<String, DoctorError>,
    /// The development teams, each with its name and identifier; none
    /// where they could not be looked up.
    pub development_teams: Option<Vec<(String, String)>>,
}

/// Whether `bullet` is a success with the text `text`.
pub open spec fn says(bullet: ReportBullet, text: Seq<char>) -> bool {
    match bullet {
        ReportBullet::Success { bullet } => bullet@ == text,
        _ => false,
    }
}

/// The bullet for one development team.
pub open spec fn team_bullet(team: (String, String)) -> Seq<char> {
    "Dev Team: "@ + team.0@ + " ("@ + team.1@ + ")"@
}

/// The report on the Apple tools: the versions of the three tools, the
/// bullet of the plugin, and the teams or the failure to find any. The
/// status is a failure where a bullet is, or the host is not macOS, or
/// the plugin is out of date.
pub fn check_apple(tools: AppleTools, plugin: (bool, ReportBullet), host: Host) -> (r:
    DoctorReport)
    ensures
        r.headline@ == "Apple Developer Tools"@,
        r.bullets.len() == 4 + match tools.development_teams {
            Some(teams) => teams.len(),
            None => 1,
        },
        r.bullets[0] == report_bullet_of(tools.xcode_version),
        r.bullets[1] == report_bullet_of(tools.xcode_select_version),
        r.bullets[2] == report_bullet_of(tools.ios_deploy_version),
        r.bullets[3] == plugin.1,
        match tools.development_teams {
            Some(teams) => forall|i: int|
                0 <= i < teams.len() ==> says(#[trigger] r.bullets[4 + i], team_bullet(teams[i])),
            None => r.bullets[4] matches ReportBullet::Failure {
                error: DoctorError::MiscError { error },
            } && error@ == "No Apple Developer Teams were found!"@,
        },
        r.status == DoctorStatus::of(
            (exists|i: int| 0 <= i < r.bullets.len() && r.bullets[i] is Failure) || host
                != Host::MacOs || !plugin.0,
            exists|i: int| 0 <= i < r.bullets.len() && r.bullets[i] is Warning,
        ),
{
    let AppleTools { xcode_version, xcode_select_version, ios_deploy_version, development_teams } =
        tools;
    let mut bullets = vec![
        report_bullet(xcode_version),
        report_bullet(xcode_select_version),
        report_bullet(ios_deploy_version),
        plugin.1,
    ];
    match development_teams {
        None => {
            bullets.push(
                fail_bullet(
                    DoctorError::MiscError {
                        error: "No Apple Developer Teams were found!".to_owned(),
                    },
                ),
            );
        },
        Some(teams) => {
            let mut i: usize = 0;
            while i < teams.len()
                invariant
                    i <= teams.len(),
                    bullets.len() == 4 + i,
                    bullets[0] == report_bullet_of(tools.xcode_version),
                    bullets[1] == report_bullet_of(tools.xcode_select_version),
                    bullets[2] == report_bullet_of(tools.ios_deploy_version),
                    bullets[3] == plugin.1,
                    forall|j: int|
                        0 <= j < i ==> says(#[trigger] bullets[4 + j], team_bullet(teams[j])),
                decreases teams.len() - i,
            {
                bullets.push(
                    success_bullet(
                        "Dev Team: ".to_owned().concat(teams[i].0.as_str()).concat(" (").concat(
                            teams[i].1.as_str(),
                        ).concat(")"),
                    ),
                );
                i += 1;
            }
        },
    }
    let status = DoctorStatus::new(
        has_error(&bullets) || !host.is_macos() || !plugin.0,
        has_warning(&bullets),
    );
    DoctorReport { status, headline: "Apple Developer Tools".to_owned(), bullets }
}

/// The bullet that the result of a command stands for.
pub open spec fn report_bullet_of(command_result: Result<String, DoctorError>) -> ReportBullet {
    match command_result {
        Ok(bullet) => ReportBullet::Success { bullet },
        Err(error) => ReportBullet::Failure { error },
    }
}

/// The pattern of the line in which an SDK tells its revision.
pub const SDK_REVISION_PATTERN: &'static str = "Pkg.Revision=(?P<version>[0-9.]*)";

/// The pattern of the line in which an NDK tells its revision.
pub const NDK_REVISION_PATTERN: &'static str = "Pkg.Revision = (?P<version>[0-9.]*)";

/// The revision that a properties file tells, as the pattern finds it.
pub open spec fn revision_of(pattern: Seq<char>, properties: Seq<char>) -> Option<Seq<char>> {
    match (pattern_names(pattern), first_match(pattern, properties)) {
        (Some(names), Some(groups)) => named_group(names, groups, "version"@),
        _ => None,
    }
}

/// Looks for the revision that a properties file tells.
pub fn find_revision(pattern: &str, properties: &str, details: &str) -> (r: Result<
    String,
    DoctorError,
>)
    ensures
        match revision_of(pattern@, properties@) {
            Some(version) => r matches Ok(v) && v@ == version,
            None => r matches Err(DoctorError::RegexSearchFailed { search_expr, details: d })
                && search_expr@ == pattern@ && d@ == details@,
        },
{
    let found = match captures(pattern, properties) {
        Ok(Some(caps)) => caps.name("version"),
        _ => None,
    };
    match found {
        Some(version) => Ok(version),
        None => Err(
            DoctorError::RegexSearchFailed {
                search_expr: pattern.to_owned(),
                details: details.to_owned(),
            },
        ),
    }
}

/// What is known of an Android environment that could be set up.
pub struct AndroidTools {
    pub sdk_root: String,
    /// What the properties file of the SDK holds.
    pub sdk_source_properties: String,
    pub ndk_home: String,
    /// What the properties file of the NDK holds.
    pub ndk_source_properties: String,
}

/// The report on the Android tools: the two kits with their revisions,
/// or a warning that they were not found. A properties file that tells
/// no revision is an error.
pub fn check_android(tools: Option<AndroidTools>) -> (r: Result<DoctorReport, DoctorError>)
    ensures
        match tools {
            None => r matches Ok(report) && report.status == DoctorStatus::Failure
                && report.headline@ == "Android Build Tools"@ && report.bullets.len() == 1 && (
            report.bullets[0] matches ReportBullet::Warning { bullet } && bullet@
                == "Failed to find ANDROID_SDK_ROOT or ANDROID_HOME environment variable!"@),
            Some(tools) => match (
                revision_of(SDK_REVISION_PATTERN@, tools.sdk_source_properties@),
                revision_of(NDK_REVISION_PATTERN@, tools.ndk_source_properties@),
            ) {
                (Some(sdk), Some(ndk)) => r matches Ok(report) && report.status
                    == DoctorStatus::Success && report.headline@ == "Android Build Tools"@
                    && report.bullets.len() == 2 && (
                report.bullets[0] matches ReportBullet::Success { bullet } && bullet@ == "SDK: "@
                    + tools.sdk_root@ + " ("@ + sdk + ")"@) && (
                report.bullets[1] matches ReportBullet::Success { bullet } && bullet@ == "NDK: "@
                    + tools.ndk_home@ + " ("@ + ndk + ")"@),
                _ => r matches Err(e) && e is RegexSearchFailed,
            },
        },
{
    match tools {
        Some(tools) => {
            let sdk_version = match find_revision(
                SDK_REVISION_PATTERN,
                tools.sdk_source_properties.as_str(),
                "Unable to locate Android SDK version",
            ) {
                Ok(v) => v,
                Err(e) => {
                    return Err(e);
                },
            };
            let ndk_version = match find_revision(
                NDK_REVISION_PATTERN,
                tools.ndk_source_properties.as_str(),
                "Unable to locate Android NDK version",
            ) {
                Ok(v) => v,
                Err(e) => {
                    return Err(e);
                },
            };
            Ok(
                DoctorReport {
                    status: DoctorStatus::new(false, false),
                    headline: "Android Build Tools".to_owned(),
                    bullets: vec![
                        success_bullet(
                            "SDK: ".to_owned().concat(tools.sdk_root.as_str()).concat(
                                " (",
                            ).concat(sdk_version.as_str()).concat(")"),
                        ),
                        success_bullet(
                            "NDK: ".to_owned().concat(tools.ndk_home.as_str()).concat(
                                " (",
                            ).concat(ndk_version.as_str()).concat(")"),
                        ),
                    ],
                },
            )
        },
        None => Ok(
            DoctorReport {
                status: DoctorStatus::new(true, false),
                headline: "Android Build Tools".to_owned(),
                bullets: vec![
                    warn_bullet(
                        "Failed to find ANDROID_SDK_ROOT or ANDROID_HOME environment variable!".to_owned(),
                    ),
                ],
            },
        ),
    }
}

/// The report on the connected devices: a bullet for each, or a warning
/// that there is none.
pub fn check_device_list(devices: &Vec<String>) -> (r: DoctorReport)
    ensures
        r.headline@ == "Connected Devices"@,
        r.status == DoctorStatus::of(false, devices.len() == 0),
        if devices.len() == 0 {
            r.bullets.len() == 1 && (r.bullets[0] matches ReportBullet::Warning { bullet }
                && bullet@ == "No connected devices were found"@)
        } else {
            r.bullets.len() == devices.len() && forall|i: int|
                0 <= i < devices.len() ==> says(#[trigger] r.bullets[i], devices[i]@)
        },
{
    let mut device_list: Vec<ReportBullet> = Vec::new();
    let mut i: usize = 0;
    while i < devices.len()
        invariant
            i <= devices.len(),
            device_list.len() == i,
            forall|j: int| 0 <= j < i ==> says(#[trigger] device_list[j], devices[j]@),
        decreases devices.len() - i,
    {
        device_list.push(success_bullet(devices[i].clone()));
        i += 1;
    }
    let no_devices_warning = device_list.len() == 0;
    if no_devices_warning {
        device_list.push(warn_bullet("No connected devices were found".to_owned()));
    }
    DoctorReport {
        status: DoctorStatus::new(false, no_devices_warning),
        headline: "Connected Devices".to_string(),
        bullets: device_list,
    }
}

/// Where the language specification of the Xcode plugin goes: since
/// Xcode 11 into the resources of the source model, before that into the
/// application itself.
pub fn plugin_spec_path(xcode_app_dir: &PathParts, xcode_major: u32) -> (r: PathParts)
    ensures
        r@ == (if xcode_major >= 11 {
            crate::util::path::joined(
                xcode_app_dir@,
                crate::util::path::slashed(
                    "SharedFrameworks/SourceModel.framework/Versions/A/Resources"@,
                ),
            ).push(PartView::Name("LanguageSpecifications"@))
        } else {
            xcode_app_dir@.push(PartView::Name("Specifications"@))
        }).push(PartView::Name("Rust.xclangspec"@)),
{
    let base = if xcode_major >= 11 {
        xcode_app_dir.join_slashed(
            "SharedFrameworks/SourceModel.framework/Versions/A/Resources",
        ).join_name("LanguageSpecifications")
    } else {
        xcode_app_dir.join_name("Specifications")
    };
    base.join_name("Rust.xclangspec")
}

/// Where the language metadata of the Xcode plugin goes.
pub fn plugin_meta_path(xcode_app_dir: &PathParts) -> (r: PathParts)
    ensures
        r@ == crate::util::path::joined(
            crate::util::path::joined(
                xcode_app_dir@,
                crate::util::path::slashed(
                    "SharedFrameworks/SourceModel.framework/Versions/A/Resources"@,
                ),
            ),
            crate::util::path::slashed(
                "LanguageMetadata/Xcode.SourceCodeLanguage.Rust.plist"@,
            ),
        ),
{
    xcode_app_dir.join_slashed(
        "SharedFrameworks/SourceModel.framework/Versions/A/Resources",
    ).join_slashed("LanguageMetadata/Xcode.SourceCodeLanguage.Rust.plist")
}

/// Whether the Xcode plugin is up to date, with the bullet that says
/// so. `stale` is what the check of the plugin gave; a check that failed
/// counts as stale.
pub fn validate_xcode_plugin(stale: Result<bool, String>) -> (r: (bool, ReportBullet))
    ensures
        r.0 == (stale matches Ok(s) && !s),
        if r.0 {
            r.1 matches ReportBullet::Success { bullet } && bullet@
                == "Xcode Rust.ideplugin is up to date."@
        } else {
            r.1 matches ReportBullet::Failure { error: DoctorError::MiscError { error } }
                && error@ == "Xcode Rust.ideplugin is out of date!"@
        },
{
    let plugin_valid = match stale {
        Ok(s) => !s,
        Err(_) => false,
    };
    let plugin_bullet = if plugin_valid {
        success_bullet("Xcode Rust.ideplugin is up to date.".to_owned())
    } else {
        fail_bullet(
            DoctorError::MiscError { error: "Xcode Rust.ideplugin is out of date!".to_owned() },
        )
    };
    (plugin_valid, plugin_bullet)
}

/// What is to be done about the path of `xcode-select`.
pub struct XcodeSelectAdvice {
    /// The lines that tell the user what is wrong.
    pub lines: Vec<String>,
    /// The command that sets the path right, which is run if the user
    /// agrees.
    pub fix: Command,
}

/// The advice on the path that `xcode-select` points to. There is none
/// where the path holds the directory of the Xcode application.
pub fn validate_xcode_select(xcode_app_dir: &PathParts, xcode_select_path: &str) -> (r: Option<
    XcodeSelectAdvice,
>)
    ensures
        r is None <==> has_part(xcode_select_path@, path_text(xcode_app_dir@)),
        r matches Some(advice) ==> {
            let recommended = path_text(xcode_app_dir@.push(PartView::Name("Developer"@)));
            &&& advice.lines.deep_view() == seq![
                "xcode-select path was not in the Xcode app directory:"@,
                "Xcode App Directory: "@ + path_text(xcode_app_dir@),
                "Xcode Select:        "@ + xcode_select_path@,
                "Recommended:         "@ + recommended,
            ]
            &&& advice.fix@ == CommandView::impure("xcode-select"@).with_arg(
                "-s"@,
            ).with_parsed_args(recommended)
        },
{
    let app_dir = xcode_app_dir.to_string();
    if contains_str(xcode_select_path, app_dir.as_str()) {
        return None;
    }
    let updated_path = xcode_app_dir.join_name("Developer").to_string();
    let lines = vec![
        "xcode-select path was not in the Xcode app directory:".to_owned(),
        "Xcode App Directory: ".to_owned().concat(app_dir.as_str()),
        "Xcode Select:        ".to_owned().concat(xcode_select_path),
        "Recommended:         ".to_owned().concat(updated_path.as_str()),
    ];
    let fix = Command::impure("xcode-select").with_arg("-s").with_parsed_args(
        updated_path.as_str(),
    );
    Some(XcodeSelectAdvice { lines, fix })
}

/// All reports of a run, in the order in which they are shown.
pub fn exec(
    cargo_mobile: DoctorReport,
    rust: DoctorReport,
    os: DoctorReport,
    apple: DoctorReport,
    android: DoctorReport,
    device_list: DoctorReport,
) -> (r: ReportSummary)
    ensures
        r.reports@ == seq![cargo_mobile, rust, os, apple, android, device_list],
{
    let reports = vec![cargo_mobile, rust, os, apple, android, device_list];
    ReportSummary { reports }
}

} // verus!
