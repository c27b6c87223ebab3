//! An Android device, and the steps that bring an app onto it.

use super::config::Config;
use super::env::Env;
use super::jnilibs::{self, RemoveBrokenLinksError};
use super::target::Target;
use crate::opts::{FilterLevel, NoiseLevel, Profile};
use crate::os::Host;
use crate::util::case::{camel_case, snake_case, to_camel_case};
use crate::util::cli::{Label, Report, ReportView};
use crate::util::command::{Command, CommandView};
use crate::util::disk::Disk;
use crate::util::path::{
    begins, joined, path_text, slashed, PartView, PathNotPrefixed, PathParts,
};
use crate::util::reversed_domain;
use vstd::prelude::*;
use vstd::string::*;

verus! {

/// The Gradle wrapper of the generated project.
pub open spec fn gradlew_view(config: &Config, env: &Env) -> CommandView {
    CommandView::pure(
        path_text(config.project_path().push(PartView::Name("gradlew"@))),
    ).with_env_vars(env.explicit()).with_arg("--project-dir"@).with_arg(
        path_text(config.project_path()),
    )
}

pub fn gradlew(config: &Config, env: &Env) -> (r: Command)
    ensures
        r@ == gradlew_view(config, env),
{
    let gradlew_path = config.project_dir().join_name("gradlew");
    Command::pure(gradlew_path.to_string().as_str()).with_env_vars(env.explicit_vars()).with_arg(
        "--project-dir",
    ).with_arg(config.project_dir().to_string().as_str())
}

/// `adb`, speaking to the device with the serial number `serial_no`.
pub open spec fn adb_view(env: &Env, serial_no: Seq<char>) -> CommandView {
    CommandView::pure("adb"@).with_env_vars(env.explicit()).with_args(seq!["-s"@, serial_no])
}

pub fn adb(env: &Env, serial_no: &str) -> (r: Command)
    ensures
        r@ == adb_view(env, serial_no@),
{
    let args = vec!["-s".to_owned(), serial_no.to_owned()];
    proof {
        assert(args.deep_view() =~= seq!["-s"@, serial_no@]);
    }
    Command::pure("adb").with_env_vars(env.explicit_vars()).with_args(&args)
}

/// The command line that runs `bundletool` from a project that keeps the
/// downloaded archive with its generated files.
pub fn bundletool_command(host: Host) -> (r: String)
    ensures
        r@ == if host == Host::MacOs {
            "bundletool"@
        } else {
            "java -jar "@ + ("gen/android/"@ + ("bundletool-all-"@ + "1.8.0"@ + ".jar"@))
        },
{
    if host.is_macos() {
        "bundletool".to_owned()
    } else {
        "java -jar ".to_owned().concat(
            super::bundletool::bundle_tool_jar_info().jar_path().as_str(),
        )
    }
}

/// `bundletool` as a command.
pub open spec fn bundletool_view(host: Host) -> CommandView {
    if host == Host::MacOs {
        CommandView::impure("bundletool"@)
    } else {
        CommandView::impure("java"@).with_arg("-jar"@).with_arg(
            "gen/android/"@ + ("bundletool-all-"@ + "1.8.0"@ + ".jar"@),
        )
    }
}

fn bundletool(host: Host) -> (r: Command)
    ensures
        r@ == bundletool_view(host),
{
    if host.is_macos() {
        Command::impure("bundletool")
    } else {
        Command::impure("java").with_arg("-jar").with_arg(
            super::bundletool::bundle_tool_jar_info().jar_path().as_str(),
        )
    }
}

/// Whether the archive of `bundletool` has to be fetched before it can
/// run: never on macOS, elsewhere if nothing stands at `jar_path`.
pub fn install_bundletool(host: Host, jar_path: &PathParts, disk: &Disk) -> (r: bool)
    ensures
        r == (host != Host::MacOs && !disk.something_at(jar_path@)),
{
    !host.is_macos() && !disk.has(jar_path)
}

#[derive(Debug)]
pub enum ApkBuildError {
    LibSymlinkCleaningFailed(RemoveBrokenLinksError),
    /// The library could not be built; the report says why.
    LibBuildFailed(Report),
    AssembleFailed(String),
}

#[derive(Debug)]
pub enum AabBuildError {
    BuildFailed(String),
}

#[derive(Debug)]
pub enum ApksBuildError {
    CleanFailed(String),
    BuildFromAabFailed(String),
}

#[derive(Debug)]
pub enum BundletoolInstallError {
    /// The package manager of macOS failed; the text says why.
    MacOSInstallFailed(String),
    DownloadFailed(String),
    JarFileCreationFailed(String),
    CopyToFileFailed(String),
    MoveFileFailed(String),
}

#[derive(Debug)]
pub enum ApkInstallError {
    InstallFailed(String),
    InstallFromAabFailed(String),
}

#[derive(Debug)]
pub enum RunError {
    ApkBuildFailed(ApkBuildError),
    ApkInstallFailed(ApkInstallError),
    StartFailed(String),
    WakeScreenFailed(String),
    LogcatFailed(String),
    BundletoolInstallFailed(BundletoolInstallError),
    AabBuildError(AabBuildError),
    ApksFromAabBuildError(ApksBuildError),
}

#[derive(Debug)]
pub enum StacktraceError {
    /// The output could not be piped; the text says why.
    PipeFailed(String),
}

/// A report of the kind `Error` with a headline and a cause.
pub open spec fn failure(msg: Seq<char>, details: Seq<char>) -> ReportView {
    ReportView { label: Label::Error, msg, details }
}

impl ApkBuildError {
    pub open spec fn reported(&self) -> ReportView {
        match self {
            ApkBuildError::LibSymlinkCleaningFailed(err) => failure(err.headline(), err.cause()),
            ApkBuildError::LibBuildFailed(report) => report@,
            ApkBuildError::AssembleFailed(err) => failure("Failed to assemble APK"@, err@),
        }
    }

    pub fn report(&self) -> (r: Report)
        ensures
            r@ == self.reported(),
    {
        match self {
            ApkBuildError::LibSymlinkCleaningFailed(err) => err.report(),
            ApkBuildError::LibBuildFailed(report) => Report {
                label: report.label,
                msg: report.msg.clone(),
                details: report.details.clone(),
            },
            ApkBuildError::AssembleFailed(err) => Report::error(
                "Failed to assemble APK".to_owned(),
                err.clone(),
            ),
        }
    }
}

impl AabBuildError {
    pub open spec fn reported(&self) -> ReportView {
        match self {
            AabBuildError::BuildFailed(err) => failure("Failed to build AAB"@, err@),
        }
    }

    pub fn report(&self) -> (r: Report)
        ensures
            r@ == self.reported(),
    {
        match self {
            AabBuildError::BuildFailed(err) => Report::error(
                "Failed to build AAB".to_owned(),
                err.clone(),
            ),
        }
    }
}

impl ApksBuildError {
    pub open spec fn reported(&self) -> ReportView {
        match self {
            ApksBuildError::CleanFailed(err) => failure("Failed to clean old APKS"@, err@),
            ApksBuildError::BuildFromAabFailed(err) => failure(
                "Failed to build APKS from AAB"@,
                err@,
            ),
        }
    }

    pub fn report(&self) -> (r: Report)
        ensures
            r@ == self.reported(),
    {
        match self {
            ApksBuildError::CleanFailed(err) => Report::error(
                "Failed to clean old APKS".to_owned(),
                err.clone(),
            ),
            ApksBuildError::BuildFromAabFailed(err) => Report::error(
                "Failed to build APKS from AAB".to_owned(),
                err.clone(),
            ),
        }
    }
}

impl BundletoolInstallError {
    pub open spec fn reported(&self) -> ReportView {
        match self {
            BundletoolInstallError::MacOSInstallFailed(err) => failure(
                "Failed to install `bundletool`"@,
                err@,
            ),
            BundletoolInstallError::DownloadFailed(err) => failure(
                "Failed to download `bundletool`"@,
                err@,
            ),
            BundletoolInstallError::JarFileCreationFailed(err) => failure(
                "Failed to create bundletool.jar"@,
                err@,
            ),
            BundletoolInstallError::CopyToFileFailed(err) => failure(
                "Failed to copy content into bundletool.jar"@,
                err@,
            ),
            BundletoolInstallError::MoveFileFailed(err) => failure(
                "Failed to move bundletool.jar"@,
                err@,
            ),
        }
    }

    pub fn report(&self) -> (r: Report)
        ensures
            r@ == self.reported(),
    {
        match self {
            BundletoolInstallError::MacOSInstallFailed(err) => Report::error(
                "Failed to install `bundletool`".to_owned(),
                err.clone(),
            ),
            BundletoolInstallError::DownloadFailed(err) => Report::error(
                "Failed to download `bundletool`".to_owned(),
                err.clone(),
            ),
            BundletoolInstallError::JarFileCreationFailed(err) => Report::error(
                "Failed to create bundletool.jar".to_owned(),
                err.clone(),
            ),
            BundletoolInstallError::CopyToFileFailed(err) => Report::error(
                "Failed to copy content into bundletool.jar".to_owned(),
                err.clone(),
            ),
            BundletoolInstallError::MoveFileFailed(err) => Report::error(
                "Failed to move bundletool.jar".to_owned(),
                err.clone(),
            ),
        }
    }
}

impl ApkInstallError {
    pub open spec fn reported(&self) -> ReportView {
        match self {
            ApkInstallError::InstallFailed(err) => failure("Failed to install APK"@, err@),
            ApkInstallError::InstallFromAabFailed(err) => failure(
                "Failed to install APK from AAB"@,
                err@,
            ),
        }
    }

    pub fn report(&self) -> (r: Report)
        ensures
            r@ == self.reported(),
    {
        match self {
            ApkInstallError::InstallFailed(err) => Report::error(
                "Failed to install APK".to_owned(),
                err.clone(),
            ),
            ApkInstallError::InstallFromAabFailed(err) => Report::error(
                "Failed to install APK from AAB".to_owned(),
                err.clone(),
            ),
        }
    }
}

impl RunError {
    pub open spec fn reported(&self) -> ReportView {
        match self {
            RunError::ApkBuildFailed(err) => err.reported(),
            RunError::ApkInstallFailed(err) => err.reported(),
            RunError::StartFailed(err) => failure("Failed to start app on device"@, err@),
            RunError::WakeScreenFailed(err) => failure("Failed to wake device screen"@, err@),
            RunError::LogcatFailed(err) => failure("Failed to log output"@, err@),
            RunError::BundletoolInstallFailed(err) => err.reported(),
            RunError::AabBuildError(err) => err.reported(),
            RunError::ApksFromAabBuildError(err) => err.reported(),
        }
    }

    pub fn report(&self) -> (r: Report)
        ensures
            r@ == self.reported(),
    {
        match self {
            RunError::ApkBuildFailed(err) => err.report(),
            RunError::ApkInstallFailed(err) => err.report(),
            RunError::StartFailed(err) => Report::error(
                "Failed to start app on device".to_owned(),
                err.clone(),
            ),
            RunError::WakeScreenFailed(err) => Report::error(
                "Failed to wake device screen".to_owned(),
                err.clone(),
            ),
            RunError::LogcatFailed(err) => Report::error(
                "Failed to log output".to_owned(),
                err.clone(),
            ),
            RunError::BundletoolInstallFailed(err) => err.report(),
            RunError::AabBuildError(err) => err.report(),
            RunError::ApksFromAabBuildError(err) => err.report(),
        }
    }

    /// The error of a command that failed at `stage`; `cause` is what the
    /// system said of the failure. The two stages that run no command
    /// have errors of their own.
    pub fn command_failed(stage: Stage, cause: String) -> (r: Self)
        requires
            stage != Stage::CleanLinks,
            stage != Stage::InstallBundletool,
        ensures
            match stage {
                Stage::Assemble => r matches RunError::ApkBuildFailed(
                    ApkBuildError::AssembleFailed(c),
                ) && c == cause,
                Stage::InstallApk => r matches RunError::ApkInstallFailed(
                    ApkInstallError::InstallFailed(c),
                ) && c == cause,
                Stage::CleanApks => r matches RunError::ApksFromAabBuildError(
                    ApksBuildError::CleanFailed(c),
                ) && c == cause,
                Stage::BuildAab => r matches RunError::AabBuildError(
                    AabBuildError::BuildFailed(c),
                ) && c == cause,
                Stage::BuildApks => r matches RunError::ApksFromAabBuildError(
                    ApksBuildError::BuildFromAabFailed(c),
                ) && c == cause,
                Stage::InstallApks => r matches RunError::ApkInstallFailed(
                    ApkInstallError::InstallFromAabFailed(c),
                ) && c == cause,
                Stage::Start => r matches RunError::StartFailed(c) && c == cause,
                Stage::WakeScreen => r matches RunError::WakeScreenFailed(c) && c == cause,
                Stage::Logcat => r matches RunError::LogcatFailed(c) && c == cause,
                _ => false,
            },
    {
        match stage {
            Stage::Assemble => RunError::ApkBuildFailed(ApkBuildError::AssembleFailed(cause)),
            Stage::InstallApk => RunError::ApkInstallFailed(ApkInstallError::InstallFailed(cause)),
            Stage::CleanApks => RunError::ApksFromAabBuildError(
                ApksBuildError::CleanFailed(cause),
            ),
            Stage::BuildAab => RunError::AabBuildError(AabBuildError::BuildFailed(cause)),
            Stage::BuildApks => RunError::ApksFromAabBuildError(
                ApksBuildError::BuildFromAabFailed(cause),
            ),
            Stage::InstallApks => RunError::ApkInstallFailed(
                ApkInstallError::InstallFromAabFailed(cause),
            ),
            Stage::Start => RunError::StartFailed(cause),
            Stage::WakeScreen => RunError::WakeScreenFailed(cause),
            _ => RunError::LogcatFailed(cause),
        }
    }
}

impl StacktraceError {
    pub fn report(&self) -> (r: Report)
        ensures
            r@ == match self {
                StacktraceError::PipeFailed(err) => failure(
                    "Failed to pipe stacktrace output"@,
                    err@,
                ),
            },
    {
        match self {
            StacktraceError::PipeFailed(err) => Report::error(
                "Failed to pipe stacktrace output".to_owned(),
                err.clone(),
            ),
        }
    }
}

/// What one step of a run does.
#[derive(Clone, Copy, Debug, PartialEq, Eq, Structural)]
pub enum Stage {
    /// Clears links to libraries that are gone; no command.
    CleanLinks,
    Assemble,
    InstallApk,
    /// Fetches `bundletool`; no command.
    InstallBundletool,
    CleanApks,
    BuildAab,
    BuildApks,
    InstallApks,
    Start,
    WakeScreen,
    Logcat,
}

/// One step of a run: what it is for, and the command to run, if it runs
/// one.
#[derive(Debug)]
pub struct Step {
    pub stage: Stage,
    pub command: Option<Command>,
}

pub struct StepView {
    pub stage: Stage,
    pub command: Option<CommandView>,
}

impl View for Step {
    type V = StepView;

    open spec fn view(&self) -> StepView {
        StepView {
            stage: self.stage,
            command: match self.command {
                Some(c) => Some(c@),
                None => None,
            },
        }
    }
}

pub open spec fn steps_view(steps: Seq<Step>) -> Seq<StepView> {
    steps.map_values(|s: Step| s@)
}

/// A device that `adb` knows.
#[derive(Debug)]
pub struct Device<'a> {
    pub serial_no: String,
    pub name: String,
    pub model: String,
    pub target: &'a Target<'a>,
}

/// The ending of the file name of a package.
pub open spec fn suffix_text(profile: Profile) -> Seq<char> {
    match profile {
        Profile::Debug => "debug"@,
        Profile::Release => "release-unsigned"@,
    }
}

/// The file of a build, seen from the project: under `dir`, in the
/// directories of the flavor and the profile, with the ending `ext`.
pub open spec fn output_text(
    dir: Seq<char>,
    between: Seq<char>,
    profile: Profile,
    flavor: Seq<char>,
    ext: Seq<char>,
) -> Seq<char> {
    dir + flavor + between + profile.text() + "/app-"@ + flavor + "-"@ + suffix_text(profile) + ext
}

pub open spec fn apk_path_of(config: &Config, profile: Profile, flavor: Seq<char>) -> Seq<PartView> {
    joined(
        config.project_path(),
        slashed(output_text("app/build/outputs/apk/"@, "/"@, profile, flavor, ".apk"@)),
    )
}

pub open spec fn apks_path_of(config: &Config, profile: Profile, flavor: Seq<char>) -> Seq<
    PartView,
> {
    joined(
        config.project_path(),
        slashed(output_text("app/build/outputs/apk/"@, "/"@, profile, flavor, ".apks"@)),
    )
}

/// The bundle lies in one directory named by flavor and profile
/// together.
pub open spec fn aab_path_of(config: &Config, profile: Profile, flavor: Seq<char>) -> Seq<PartView> {
    joined(
        config.project_path(),
        slashed(
            output_text(
                "app/build/outputs/bundle/"@,
                Seq::<char>::empty(),
                profile,
                flavor,
                ".aab"@,
            ),
        ),
    )
}

/// The flag that tells Gradle how much to say.
pub open spec fn noise_flag(noise_level: NoiseLevel) -> Seq<char> {
    match noise_level {
        NoiseLevel::Polite => "--warn"@,
        NoiseLevel::LoudAndProud => "--info"@,
        NoiseLevel::FranklyQuitePedantic => "--debug"@,
    }
}

/// The level of log lines that is shown where the user chose none.
pub open spec fn default_filter(noise_level: NoiseLevel) -> FilterLevel {
    match noise_level {
        NoiseLevel::Polite => FilterLevel::Warn,
        NoiseLevel::LoudAndProud => FilterLevel::Info,
        NoiseLevel::FranklyQuitePedantic => FilterLevel::Verbose,
    }
}

/// The activity that starts the app.
pub open spec fn activity_text(config: &Config) -> Seq<char> {
    reversed_domain(config.app.domain@) + "."@ + snake_case(config.app.name@)
        + "/android.app.NativeActivity"@
}

impl<'a> Device<'a> {
    pub fn new(serial_no: String, name: String, model: String, target: &'a Target<'a>) -> (r: Self)
        ensures
            r.serial_no == serial_no,
            r.name == name,
            r.model == model,
            r.target == target,
    {
        Self { serial_no, name, model, target }
    }

    pub fn target(&self) -> (r: &'a Target<'a>)
        ensures
            r == self.target,
    {
        self.target
    }

    /// The name of the device, with its model in brackets where that is
    /// another word.
    pub open spec fn text(&self) -> Seq<char> {
        if self.model@ != self.name@ {
            self.name@ + " ("@ + self.model@ + ")"@
        } else {
            self.name@
        }
    }

    pub fn to_string(&self) -> (r: String)
        ensures
            r@ == self.text(),
    {
        if !self.model.as_str().eq(self.name.as_str()) {
            self.name.clone().concat(" (").concat(self.model.as_str()).concat(")")
        } else {
            self.name.clone()
        }
    }

    pub fn adb(&self, env: &Env) -> (r: Command)
        ensures
            r@ == adb_view(env, self.serial_no@),
    {
        adb(env, self.serial_no.as_str())
    }

    pub fn suffix(profile: Profile) -> (r: &'static str)
        ensures
            r@ == suffix_text(profile),
    {
        match profile {
            Profile::Debug => profile.as_str(),
            Profile::Release => "release-unsigned",
        }
    }

    fn output(dir: &str, between: &str, profile: Profile, flavor: &str, ext: &str) -> (r: String)
        ensures
            r@ == output_text(dir@, between@, profile, flavor@, ext@),
    {
        dir.to_owned().concat(flavor).concat(between).concat(profile.as_str()).concat(
            "/app-",
        ).concat(flavor).concat("-").concat(Self::suffix(profile)).concat(ext)
    }

    pub fn apk_path(config: &Config, profile: Profile, flavor: &str) -> (r: PathParts)
        ensures
            r@ == apk_path_of(config, profile, flavor@),
    {
        config.project_dir().join_slashed(
            Self::output("app/build/outputs/apk/", "/", profile, flavor, ".apk").as_str(),
        )
    }

    pub fn apks_path(config: &Config, profile: Profile, flavor: &str) -> (r: PathParts)
        ensures
            r@ == apks_path_of(config, profile, flavor@),
    {
        config.project_dir().join_slashed(
            Self::output("app/build/outputs/apk/", "/", profile, flavor, ".apks").as_str(),
        )
    }

    pub fn aab_path(config: &Config, profile: Profile, flavor: &str) -> (r: PathParts)
        ensures
            r@ == aab_path_of(config, profile, flavor@),
    {
        let none = String::new();
        config.project_dir().join_slashed(
            Self::output("app/build/outputs/bundle/", none.as_str(), profile, flavor, ".aab").as_str(),
        )
    }

    /// Gradle, assembling the package for the device's architecture.
    pub open spec fn build_apk_view(
        &self,
        config: &Config,
        env: &Env,
        noise_level: NoiseLevel,
        profile: Profile,
    ) -> CommandView {
        gradlew_view(config, env).with_arg(
            "assemble"@ + camel_case(self.target.arch@) + camel_case(profile.text()),
        ).with_arg(noise_flag(noise_level))
    }

    pub fn build_apk(&self, config: &Config, env: &Env, noise_level: NoiseLevel, profile: Profile)
        -> (r: Command)
        ensures
            r@ == self.build_apk_view(config, env, noise_level, profile),
    {
        let flavor = to_camel_case(self.target.arch);
        let build_ty = to_camel_case(profile.as_str());
        gradlew(config, env).with_arg(
            "assemble".to_owned().concat(flavor.as_str()).concat(build_ty.as_str()).as_str(),
        ).with_arg(
            match noise_level {
                NoiseLevel::Polite => "--warn",
                NoiseLevel::LoudAndProud => "--info",
                NoiseLevel::FranklyQuitePedantic => "--debug",
            },
        )
    }

    pub open spec fn install_apk_view(&self, config: &Config, env: &Env, profile: Profile)
        -> CommandView {
        adb_view(env, self.serial_no@).with_arg("install"@).with_arg(
            path_text(apk_path_of(config, profile, self.target.arch@)),
        )
    }

    pub fn install_apk(&self, config: &Config, env: &Env, profile: Profile) -> (r: Command)
        ensures
            r@ == self.install_apk_view(config, env, profile),
    {
        let apk_path = Self::apk_path(config, profile, self.target.arch);
        self.adb(env).with_arg("install").with_arg(apk_path.to_string().as_str())
    }

    /// `rm`, clearing away the packages of an earlier build.
    pub open spec fn clean_apks_view(&self, config: &Config, profile: Profile) -> CommandView {
        CommandView::impure("rm"@).with_arg("-f"@).with_parsed_args(
            path_text(apks_path_of(config, profile, self.target.arch@)),
        )
    }

    pub fn clean_apks(&self, config: &Config, profile: Profile) -> (r: Command)
        ensures
            r@ == self.clean_apks_view(config, profile),
    {
        let apks_path = Self::apks_path(config, profile, self.target.arch);
        Command::impure("rm").with_arg("-f").with_parsed_args(apks_path.to_string().as_str())
    }

    pub open spec fn build_aab_view(&self, config: &Config, env: &Env, profile: Profile)
        -> CommandView {
        gradlew_view(config, env).with_arg(
            ":app:bundle"@ + camel_case(self.target.arch@) + camel_case(profile.text()),
        )
    }

    pub fn build_aab(&self, config: &Config, env: &Env, profile: Profile) -> (r: Command)
        ensures
            r@ == self.build_aab_view(config, env, profile),
    {
        let flavor = to_camel_case(self.target.arch);
        let build_ty = to_camel_case(profile.as_str());
        gradlew(config, env).with_arg(
            ":app:bundle".to_owned().concat(flavor.as_str()).concat(build_ty.as_str()).as_str(),
        )
    }

    pub open spec fn build_apks_from_aab_view(&self, config: &Config, profile: Profile, host: Host)
        -> CommandView {
        bundletool_view(host).with_parsed_args("build-apks"@).with_parsed_args(
            "--bundle="@ + path_text(aab_path_of(config, profile, self.target.arch@)),
        ).with_parsed_args(
            "--output="@ + path_text(apks_path_of(config, profile, self.target.arch@)),
        ).with_parsed_args("--connected-device"@)
    }

    pub fn build_apks_from_aab(&self, config: &Config, profile: Profile, host: Host) -> (r: Command)
        ensures
            r@ == self.build_apks_from_aab_view(config, profile, host),
    {
        let flavor = self.target.arch;
        let apks_path = Self::apks_path(config, profile, flavor);
        let aab_path = Self::aab_path(config, profile, flavor);
        bundletool(host).with_parsed_args("build-apks").with_parsed_args(
            "--bundle=".to_owned().concat(aab_path.to_string().as_str()).as_str(),
        ).with_parsed_args(
            "--output=".to_owned().concat(apks_path.to_string().as_str()).as_str(),
        ).with_parsed_args("--connected-device")
    }

    pub open spec fn install_apk_from_aab_view(&self, config: &Config, profile: Profile, host: Host)
        -> CommandView {
        bundletool_view(host).with_parsed_args("install-apks"@).with_parsed_args(
            "--apks="@ + path_text(apks_path_of(config, profile, self.target.arch@)),
        )
    }

    pub fn install_apk_from_aab(&self, config: &Config, profile: Profile, host: Host) -> (r:
        Command)
        ensures
            r@ == self.install_apk_from_aab_view(config, profile, host),
    {
        let apks_path = Self::apks_path(config, profile, self.target.arch);
        bundletool(host).with_parsed_args("install-apks").with_parsed_args(
            "--apks=".to_owned().concat(apks_path.to_string().as_str()).as_str(),
        )
    }

    pub open spec fn start_view(&self, config: &Config, env: &Env) -> CommandView {
        adb_view(env, self.serial_no@).with_args(
            seq!["shell"@, "am"@, "start"@, "-n"@, activity_text(config)],
        )
    }

    /// `adb`, starting the app's activity.
    pub fn start(&self, config: &Config, env: &Env) -> (r: Command)
        ensures
            r@ == self.start_view(config, env),
    {
        let activity = config.app().reverse_domain().concat(".").concat(
            config.app().name_snake().as_str(),
        ).concat("/android.app.NativeActivity");
        let args = vec![
            "shell".to_owned(),
            "am".to_owned(),
            "start".to_owned(),
            "-n".to_owned(),
            activity,
        ];
        proof {
            assert(args.deep_view() =~= seq![
                "shell"@,
                "am"@,
                "start"@,
                "-n"@,
                activity_text(config),
            ]);
        }
        self.adb(env).with_args(&args)
    }

    pub open spec fn wake_screen_view(&self, env: &Env) -> CommandView {
        adb_view(env, self.serial_no@).with_args(
            seq!["shell"@, "input"@, "keyevent"@, "KEYCODE_WAKEUP"@],
        )
    }

    pub fn wake_screen(&self, env: &Env) -> (r: Command)
        ensures
            r@ == self.wake_screen_view(env),
    {
        let args = vec![
            "shell".to_owned(),
            "input".to_owned(),
            "keyevent".to_owned(),
            "KEYCODE_WAKEUP".to_owned(),
        ];
        proof {
            assert(args.deep_view() =~= seq![
                "shell"@,
                "input"@,
                "keyevent"@,
                "KEYCODE_WAKEUP"@,
            ]);
        }
        self.adb(env).with_args(&args)
    }

    pub open spec fn logcat_view(
        &self,
        config: &Config,
        env: &Env,
        noise_level: NoiseLevel,
        filter_level: Option<FilterLevel>,
    ) -> CommandView {
        let level = match filter_level {
            Some(level) => level,
            None => default_filter(noise_level),
        };
        adb_view(env, self.serial_no@).with_args(
            seq![
                "logcat"@,
                "-v"@,
                "color"@,
                "-s"@,
                config.app.name@ + ":"@ + level.logcat_text(),
            ],
        )
    }

    /// `adb`, showing the log lines of the app.
    pub fn logcat(
        &self,
        config: &Config,
        env: &Env,
        noise_level: NoiseLevel,
        filter_level: Option<FilterLevel>,
    ) -> (r: Command)
        ensures
            r@ == self.logcat_view(config, env, noise_level, filter_level),
    {
        let level = match filter_level {
            Some(level) => level,
            None => match noise_level {
                NoiseLevel::Polite => FilterLevel::Warn,
                NoiseLevel::LoudAndProud => FilterLevel::Info,
                NoiseLevel::FranklyQuitePedantic => FilterLevel::Verbose,
            },
        };
        let filter = config.app().name().to_owned().concat(":").concat(level.logcat());
        let args = vec![
            "logcat".to_owned(),
            "-v".to_owned(),
            "color".to_owned(),
            "-s".to_owned(),
            filter,
        ];
        proof {
            assert(args.deep_view() =~= seq![
                "logcat"@,
                "-v"@,
                "color"@,
                "-s"@,
                config.app.name@ + ":"@ + level.logcat_text(),
            ]);
        }
        self.adb(env).with_args(&args)
    }

    /// The steps of a run, in order. With `build_app_bundle` the app goes
    /// to the device by way of a bundle, else as one package; then it is
    /// started, the screen woken, and the log shown. The program carries
    /// the steps out one by one and stops at the first that fails.
    pub open spec fn run_steps(
        &self,
        config: &Config,
        env: &Env,
        noise_level: NoiseLevel,
        profile: Profile,
        filter_level: Option<FilterLevel>,
        build_app_bundle: bool,
        host: Host,
    ) -> Seq<StepView> {
        let first = if build_app_bundle {
            seq![
                StepView { stage: Stage::InstallBundletool, command: None },
                StepView {
                    stage: Stage::CleanApks,
                    command: Some(self.clean_apks_view(config, profile)),
                },
                StepView {
                    stage: Stage::BuildAab,
                    command: Some(self.build_aab_view(config, env, profile)),
                },
                StepView {
                    stage: Stage::BuildApks,
                    command: Some(self.build_apks_from_aab_view(config, profile, host)),
                },
                StepView {
                    stage: Stage::InstallApks,
                    command: Some(self.install_apk_from_aab_view(config, profile, host)),
                },
            ]
        } else {
            seq![
                StepView { stage: Stage::CleanLinks, command: None },
                StepView {
                    stage: Stage::Assemble,
                    command: Some(self.build_apk_view(config, env, noise_level, profile)),
                },
                StepView {
                    stage: Stage::InstallApk,
                    command: Some(self.install_apk_view(config, env, profile)),
                },
            ]
        };
        first + seq![
            StepView { stage: Stage::Start, command: Some(self.start_view(config, env)) },
            StepView { stage: Stage::WakeScreen, command: Some(self.wake_screen_view(env)) },
            StepView {
                stage: Stage::Logcat,
                command: Some(self.logcat_view(config, env, noise_level, filter_level)),
            },
        ]
    }

    /// The steps that build the app, bring it onto the device, start it
    /// and show its log.
    pub fn run(
        &self,
        config: &Config,
        env: &Env,
        noise_level: NoiseLevel,
        profile: Profile,
        filter_level: Option<FilterLevel>,
        build_app_bundle: bool,
        host: Host,
    ) -> (r: Vec<Step>)
        ensures
            steps_view(r@) == self.run_steps(
                config,
                env,
                noise_level,
                profile,
                filter_level,
                build_app_bundle,
                host,
            ),
    {
        let mut steps: Vec<Step> = Vec::new();
        if build_app_bundle {
            steps.push(Step { stage: Stage::InstallBundletool, command: None });
            steps.push(
                Step { stage: Stage::CleanApks, command: Some(self.clean_apks(config, profile)) },
            );
            steps.push(
                Step { stage: Stage::BuildAab, command: Some(self.build_aab(config, env, profile)) },
            );
            steps.push(
                Step {
                    stage: Stage::BuildApks,
                    command: Some(self.build_apks_from_aab(config, profile, host)),
                },
            );
            steps.push(
                Step {
                    stage: Stage::InstallApks,
                    command: Some(self.install_apk_from_aab(config, profile, host)),
                },
            );
        } else {
            steps.push(Step { stage: Stage::CleanLinks, command: None });
            steps.push(
                Step {
                    stage: Stage::Assemble,
                    command: Some(self.build_apk(config, env, noise_level, profile)),
                },
            );
            steps.push(
                Step {
                    stage: Stage::InstallApk,
                    command: Some(self.install_apk(config, env, profile)),
                },
            );
        }
        steps.push(Step { stage: Stage::Start, command: Some(self.start(config, env)) });
        steps.push(Step { stage: Stage::WakeScreen, command: Some(self.wake_screen(env)) });
        steps.push(
            Step {
                stage: Stage::Logcat,
                command: Some(self.logcat(config, env, noise_level, filter_level)),
            },
        );
        steps
    }

    /// The two commands of a stack trace: `adb` prints the log and ends,
    /// and `ndk-stack` reads it, looking for symbols in the directory of
    /// the libraries, named as seen from the app's root so that no blank
    /// of the root's path gets in the way. The second command is wanting
    /// where that directory does not lie under the root.
    pub fn stacktrace(&self, config: &Config, env: &Env) -> (r: Result<
        (Command, Command),
        PathNotPrefixed,
    >)
        ensures
            ({
                let libs = jnilibs::jnilibs_path(config, self.target.abi@);
                match r {
                    Ok((logcat, stack)) => {
                        &&& begins(config.app.root_dir@, libs)
                        &&& logcat@ == adb_view(env, self.serial_no@).with_args(
                            seq!["logcat"@, "-d"@],
                        )
                        &&& stack@ == CommandView::pure("ndk-stack"@).with_env_vars(
                            env.explicit(),
                        ).with_env_var(
                            "PATH"@,
                            path_text(env.ndk.ndk_home@) + ":"@ + env.base.path@,
                        ).with_arg("-sym"@).with_arg(
                            path_text(libs.skip(config.app.root_dir@.len() as int)),
                        )
                    },
                    Err(e) => !begins(config.app.root_dir@, libs) && e.path@ == libs,
                }
            }),
    {
        let args = vec!["logcat".to_owned(), "-d".to_owned()];
        proof {
            assert(args.deep_view() =~= seq!["logcat"@, "-d"@]);
        }
        let logcat_command = adb(env, self.serial_no.as_str()).with_args(&args);
        let libs = match config.app().unprefix_path(&jnilibs::path(config, *self.target)) {
            Ok(libs) => libs,
            Err(e) => {
                return Err(e);
            },
        };
        let stack_command = Command::pure("ndk-stack").with_env_vars(
            env.explicit_vars(),
        ).with_env_var(
            "PATH",
            crate::util::prepend_to_path(env.ndk.home().to_string().as_str(), env.path()).as_str(),
        ).with_arg("-sym").with_arg(libs.to_string().as_str());
        Ok((logcat_command, stack_command))
    }
}

} // verus!
