//! The commands of `cargo apple`, and what Xcode's build script needs.

use super::config::Config;
use crate::config::LoadOrGenError;
use crate::env::{Env, Error as EnvError};
use crate::opts::{ForceColor, Profile};
use crate::text::{debug_str, debug_text};
use crate::util::cli::{GlobalFlags, Label, Report, ReportView};
use crate::util::command::{Command as Invocation, CommandView};
use crate::util::disk::Disk;
use crate::util::path::{joined, path_text, slashed, NoHomeDir, PartView, PathParts};
use crate::util::rust_version::RustVersionError;
use vstd::prelude::*;
use vstd::string::*;

verus! {

/// What the user typed: the flags and the command.
#[derive(Debug)]
pub struct Input {
    pub flags: GlobalFlags,
    pub command: Command,
}

impl Input {
    pub fn new(flags: GlobalFlags, command: Command) -> (r: Self)
        ensures
            r.flags == flags,
            r.command == command,
    {
        Self { flags, command }
    }

    pub fn global_flags(&self) -> (r: GlobalFlags)
        ensures
            r == self.flags,
    {
        self.flags
    }
}

/// Whether Xcode builds for macOS, by the name it gives the platform.
pub fn macos_from_platform(platform: &str) -> (r: bool)
    ensures
        r == (platform@ == "macOS"@),
{
    platform.eq("macOS")
}

/// The profile that Xcode's configuration stands for.
pub fn profile_from_configuration(configuration: &str) -> (r: Profile)
    ensures
        r == if configuration@ == "release"@ {
            Profile::Release
        } else {
            Profile::Debug
        },
{
    if configuration.eq("release") {
        Profile::Release
    } else {
        Profile::Debug
    }
}

/// The commands of `cargo apple`.
#[derive(Debug)]
pub enum Command {
    Open,
    Check { targets: Vec<String>, features: Option<String> },
    Build { targets: Vec<String>, features: Option<String>, profile: Profile },
    Archive {
        build_number: Option<u32>,
        targets: Vec<String>,
        features: Option<String>,
        profile: Profile,
        suffix: Option<String>,
    },
    Run { features: Option<String>, profile: Profile },
    List,
    Pod { arguments: Vec<String> },
    XcodeScript {
        macos: bool,
        sdk_root: PathParts,
        framework_search_paths: String,
        gcc_preprocessor_definitions: String,
        header_search_paths: String,
        profile: Profile,
        force_color: ForceColor,
        arches: Vec<String>,
        features: Option<String>,
    },
}

/// Why a command of `cargo apple` failed. Where the fault lies with a
/// part of the tool that makes its own report, the error holds that
/// report.
#[derive(Debug)]
pub enum Error {
    EnvInitFailed(EnvError),
    RustVersionCheckFailed(RustVersionError),
    DevicePromptFailed(Report),
    TargetInvalid(String),
    ConfigFailed(LoadOrGenError),
    MetadataFailed(Report),
    Unsupported,
    ProjectDirAbsent { project_dir: PathParts },
    OpenFailed(String),
    CheckFailed(Report),
    BuildFailed(Report),
    ArchiveFailed(Report),
    ExportFailed(Report),
    RunFailed(Report),
    ListFailed(Report),
    NoHomeDir(NoHomeDir),
    CargoEnvFailed(String),
    SdkRootInvalid { sdk_root: PathParts },
    IncludeDirInvalid { include_dir: PathParts },
    MacosSdkRootInvalid { macos_sdk_root: PathParts },
    ArchInvalid { arch: String },
    CompileLibFailed(Report),
    PodCommandFailed(String),
}

/// A report of the kind `Error` with a headline and a cause.
pub open spec fn failure(msg: Seq<char>, details: Seq<char>) -> ReportView {
    ReportView { label: Label::Error, msg, details }
}

/// What is said of a directory that is not there.
pub open spec fn not_a_directory(path: Seq<PartView>) -> Seq<char> {
    debug_text(path_text(path)) + " doesn't exist or isn't a directory"@
}

fn say_not_a_directory(path: &PathParts) -> (r: String)
    ensures
        r@ == not_a_directory(path@),
{
    debug_str(path.to_string().as_str()).concat(" doesn't exist or isn't a directory")
}

impl Error {
    /// What the error says.
    pub open spec fn reported(&self) -> ReportView {
        match self {
            Error::EnvInitFailed(err) => failure("Failed to initialize base environment"@, err.message()),
            Error::RustVersionCheckFailed(err) => failure("Failed to check Rust version"@, err@.message()),
            Error::DevicePromptFailed(report) => report@,
            Error::TargetInvalid(err) => failure("Specified target was invalid"@, err@),
            Error::ConfigFailed(err) => err.reported(),
            Error::MetadataFailed(report) => report@,
            Error::Unsupported => failure(
                "iOS is marked as unsupported in your Cargo.toml metadata"@,
                "If your project should support Android, modify your Cargo.toml, then run `cargo mobile init` and try again."@,
            ),
            Error::ProjectDirAbsent { project_dir } => ReportView {
                label: Label::ActionRequest,
                msg: "Please run `cargo mobile init` and try again!"@,
                details: "Xcode project directory "@ + debug_text(path_text(project_dir@))
                    + " doesn't exist."@,
            },
            Error::OpenFailed(err) => failure("Failed to open project in Xcode"@, err@),
            Error::CheckFailed(report) => report@,
            Error::BuildFailed(report) => report@,
            Error::ArchiveFailed(report) => report@,
            Error::ExportFailed(report) => report@,
            Error::RunFailed(report) => report@,
            Error::ListFailed(report) => report@,
            Error::NoHomeDir(_) => failure(
                "Failed to load cargo env profile"@,
                "Failed to get user's home directory!"@,
            ),
            Error::CargoEnvFailed(err) => failure("Failed to load cargo env profile"@, err@),
            Error::SdkRootInvalid { sdk_root } => failure("SDK root provided by Xcode was invalid"@, not_a_directory(sdk_root@)),
            Error::IncludeDirInvalid { include_dir } => failure("Include dir was invalid"@, not_a_directory(include_dir@)),
            Error::MacosSdkRootInvalid { macos_sdk_root } => failure("macOS SDK root was invalid"@, not_a_directory(macos_sdk_root@)),
            Error::ArchInvalid { arch } => failure(
                "Arch specified by Xcode was invalid"@,
                debug_text(arch@) + " isn't a known arch"@,
            ),
            Error::CompileLibFailed(report) => report@,
            Error::PodCommandFailed(err) => failure("pod command failed"@, err@),
        }
    }

    pub fn report(&self) -> (r: Report)
        ensures
            r@ == self.reported(),
    {
        match self {
            Error::EnvInitFailed(err) => err.report(),
            Error::RustVersionCheckFailed(err) => err.report(),
            Error::DevicePromptFailed(report) => report.copy(),
            Error::TargetInvalid(err) => Report::error(
                "Specified target was invalid".to_owned(),
                err.clone(),
            ),
            Error::ConfigFailed(err) => err.report(),
            Error::MetadataFailed(report) => report.copy(),
            Error::Unsupported => Report::error(
                "iOS is marked as unsupported in your Cargo.toml metadata".to_owned(),
                "If your project should support Android, modify your Cargo.toml, then run `cargo mobile init` and try again.".to_owned(),
            ),
            Error::ProjectDirAbsent { project_dir } => Report::action_request(
                "Please run `cargo mobile init` and try again!".to_owned(),
                "Xcode project directory ".to_owned().concat(
                    debug_str(project_dir.to_string().as_str()).as_str(),
                ).concat(" doesn't exist."),
            ),
            Error::OpenFailed(err) => Report::error(
                "Failed to open project in Xcode".to_owned(),
                err.clone(),
            ),
            Error::CheckFailed(report) => report.copy(),
            Error::BuildFailed(report) => report.copy(),
            Error::ArchiveFailed(report) => report.copy(),
            Error::ExportFailed(report) => report.copy(),
            Error::RunFailed(report) => report.copy(),
            Error::ListFailed(report) => report.copy(),
            Error::NoHomeDir(err) => Report::error(
                "Failed to load cargo env profile".to_owned(),
                err.to_string(),
            ),
            Error::CargoEnvFailed(err) => Report::error(
                "Failed to load cargo env profile".to_owned(),
                err.clone(),
            ),
            Error::SdkRootInvalid { sdk_root } => Report::error(
                "SDK root provided by Xcode was invalid".to_owned(),
                say_not_a_directory(sdk_root),
            ),
            Error::IncludeDirInvalid { include_dir } => Report::error(
                "Include dir was invalid".to_owned(),
                say_not_a_directory(include_dir),
            ),
            Error::MacosSdkRootInvalid { macos_sdk_root } => Report::error(
                "macOS SDK root was invalid".to_owned(),
                say_not_a_directory(macos_sdk_root),
            ),
            Error::ArchInvalid { arch } => Report::error(
                "Arch specified by Xcode was invalid".to_owned(),
                debug_str(arch.as_str()).concat(" isn't a known arch"),
            ),
            Error::CompileLibFailed(report) => report.copy(),
            Error::PodCommandFailed(err) => Report::error(
                "pod command failed".to_owned(),
                err.clone(),
            ),
        }
    }
}

/// Whether the commands may go on: they may where the manifest says that
/// the platform is supported.
pub fn with_config(supported: bool) -> (r: Result<(), Error>)
    ensures
        r is Ok <==> supported,
        r matches Err(e) ==> e is Unsupported,
{
    if supported {
        Ok(())
    } else {
        Err(Error::Unsupported)
    }
}

/// Whether the project has been generated: `disk` has its directory.
pub fn ensure_init(config: &Config, disk: &Disk) -> (r: Result<(), Error>)
    ensures
        r is Ok <==> disk.dir_at(config.project_path()),
        r matches Err(e) ==> e matches Error::ProjectDirAbsent { project_dir } && project_dir@
            == config.project_path(),
{
    if !config.project_dir_exists(disk) {
        Err(Error::ProjectDirAbsent { project_dir: config.project_dir() })
    } else {
        Ok(())
    }
}

/// `pod` with the user's arguments, pointed at the project.
pub fn pod(config: &Config, arguments: &Vec<String>) -> (r: Invocation)
    ensures
        r@ == CommandView::impure("pod"@).with_args(arguments.deep_view()).with_arg(
            "--project-directory="@ + path_text(config.project_path()),
        ),
{
    Invocation::impure("pod").with_args(arguments).with_arg(
        "--project-directory=".to_owned().concat(config.project_dir().to_string().as_str()).as_str(),
    )
}

/// The triple, written with underscores, of an architecture that Xcode
/// names.
pub open spec fn triple_of_arch(arch: Seq<char>) -> Option<Seq<char>> {
    if arch == "arm64"@ {
        Some("aarch64_apple_ios"@)
    } else if arch == "x86_64"@ {
        Some("x86_64_apple_ios"@)
    } else {
        None
    }
}

pub fn arch_triple(arch: &str) -> (r: Result<&'static str, Error>)
    ensures
        match r {
            Ok(triple) => triple_of_arch(arch@) == Some(triple@),
            Err(e) => triple_of_arch(arch@) is None && (e matches Error::ArchInvalid { arch: a }
                && a@ == arch@),
        },
{
    if arch.eq("arm64") {
        Ok("aarch64_apple_ios")
    } else if arch.eq("x86_64") {
        Ok("x86_64_apple_ios")
    } else {
        Err(Error::ArchInvalid { arch: arch.to_owned() })
    }
}

/// A list of variables in which no name comes twice.
pub open spec fn names_distinct(vars: Seq<(Seq<char>, Seq<char>)>) -> bool {
    forall|i: int, j: int| 0 <= i < j < vars.len() ==> vars[i].0 != vars[j].0
}

/// `vars` with `key` set to `value`: in its old place where it was set
/// before, else at the end.
pub open spec fn with_var(vars: Seq<(Seq<char>, Seq<char>)>, key: Seq<char>, value: Seq<char>)
    -> Seq<(Seq<char>, Seq<char>)>
    decreases vars.len(),
{
    if vars.len() == 0 {
        seq![(key, value)]
    } else if vars[0].0 == key {
        seq![(key, value)] + vars.drop_first()
    } else {
        seq![vars[0]] + with_var(vars.drop_first(), key, value)
    }
}

/// The value that `vars` gives `key`: that of the first entry under the
/// name.
pub open spec fn var_of(vars: Seq<(Seq<char>, Seq<char>)>, key: Seq<char>) -> Option<Seq<char>>
    decreases vars.len(),
{
    if vars.len() == 0 {
        None
    } else if vars[0].0 == key {
        Some(vars[0].1)
    } else {
        var_of(vars.drop_first(), key)
    }
}

/// Setting a variable keeps every name in its place, and adds at most the
/// new name at the end, where no entry had it.
proof fn lemma_with_var_shape(vars: Seq<(Seq<char>, Seq<char>)>, key: Seq<char>, value: Seq<char>)
    ensures
        vars.len() <= with_var(vars, key, value).len() <= vars.len() + 1,
        forall|i: int|
            0 <= i < vars.len() ==> (#[trigger] with_var(vars, key, value)[i]).0 == vars[i].0,
        with_var(vars, key, value).len() == vars.len() + 1 ==> with_var(vars, key, value).last().0
            == key && forall|i: int| 0 <= i < vars.len() ==> (#[trigger] vars[i]).0 != key,
    decreases vars.len(),
{
    let w = with_var(vars, key, value);
    if vars.len() == 0 {
    } else if vars[0].0 == key {
        assert forall|i: int| 0 <= i < vars.len() implies (#[trigger] w[i]).0 == vars[i].0 by {
            if i > 0 {
                assert(w[i] == vars.drop_first()[i - 1]);
            }
        }
    } else {
        let rest = vars.drop_first();
        let inner = with_var(rest, key, value);
        lemma_with_var_shape(rest, key, value);
        assert forall|i: int| 0 <= i < vars.len() implies (#[trigger] w[i]).0 == vars[i].0 by {
            if i > 0 {
                assert(w[i] == inner[i - 1]);
                assert(rest[i - 1] == vars[i]);
            }
        }
        if w.len() == vars.len() + 1 {
            assert(w.last() == inner.last());
            assert forall|i: int| 0 <= i < vars.len() implies (#[trigger] vars[i]).0 != key by {
                if i > 0 {
                    assert(rest[i - 1] == vars[i]);
                }
            }
        }
    }
}

/// A variable that has been set has the value it was set to.
pub proof fn lemma_with_var_sets(
    vars: Seq<(Seq<char>, Seq<char>)>,
    key: Seq<char>,
    value: Seq<char>,
)
    ensures
        var_of(with_var(vars, key, value), key) == Some(value),
    decreases vars.len(),
{
    if vars.len() > 0 && vars[0].0 != key {
        lemma_with_var_sets(vars.drop_first(), key, value);
        let w = with_var(vars, key, value);
        assert(w[0] == vars[0]);
        assert(w.drop_first() =~= with_var(vars.drop_first(), key, value));
    }
}

/// Setting one variable leaves every other as it was.
pub proof fn lemma_with_var_keeps(
    vars: Seq<(Seq<char>, Seq<char>)>,
    key: Seq<char>,
    value: Seq<char>,
    other: Seq<char>,
)
    requires
        other != key,
    ensures
        var_of(with_var(vars, key, value), other) == var_of(vars, other),
    decreases vars.len(),
{
    let w = with_var(vars, key, value);
    if vars.len() == 0 {
        assert(w.drop_first() =~= vars);
    } else if vars[0].0 == key {
        assert(w.drop_first() =~= vars.drop_first());
    } else {
        lemma_with_var_keeps(vars.drop_first(), key, value, other);
        assert(w[0] == vars[0]);
        assert(w.drop_first() =~= with_var(vars.drop_first(), key, value));
    }
}

/// Setting a variable in a list without doubled names leaves it without
/// doubled names: the list stands for a map.
pub proof fn lemma_with_var_distinct(
    vars: Seq<(Seq<char>, Seq<char>)>,
    key: Seq<char>,
    value: Seq<char>,
)
    requires
        names_distinct(vars),
    ensures
        names_distinct(with_var(vars, key, value)),
{
    let w = with_var(vars, key, value);
    lemma_with_var_shape(vars, key, value);
    assert forall|i: int, j: int| 0 <= i < j < w.len() implies w[i].0 != w[j].0 by {
        if j < vars.len() {
            assert(w[i].0 == vars[i].0);
            assert(w[j].0 == vars[j].0);
        } else {
            assert(w[j] == w.last());
            assert(w[i].0 == vars[i].0);
        }
    }
}

/// Sets the variable `key` to `value`.
pub fn insert_var(vars: &mut Vec<(String, String)>, key: &str, value: &str)
    ensures
        final(vars).deep_view() == with_var(old(vars).deep_view(), key@, value@),
{
    let ghost before = vars.deep_view();
    let mut i: usize = 0;
    proof {
        assert(before.skip(0) =~= before);
    }
    while i < vars.len()
        invariant
            i <= vars.len(),
            vars.deep_view() == before,
            before == old(vars).deep_view(),
            with_var(before, key@, value@) == before.take(i as int) + with_var(
                before.skip(i as int),
                key@,
                value@,
            ),
        decreases vars.len() - i,
    {
        proof {
            assert(before.skip(i as int).drop_first() =~= before.skip(i + 1));
        }
        if vars[i].0.as_str().eq(key) {
            vars.set(i, (key.to_owned(), value.to_owned()));
            return ;
        }
        i += 1;
    }
    vars.push((key.to_owned(), value.to_owned()));
}

/// The directory of the headers in an SDK.
pub open spec fn include_dir_of(sdk_root: Seq<PartView>) -> Seq<PartView> {
    joined(sdk_root, slashed("usr/include"@))
}

/// The SDK of macOS, seen from the SDK that Xcode builds with.
pub open spec fn macos_sdk_root_of(sdk_root: Seq<PartView>) -> Seq<PartView> {
    joined(sdk_root, slashed("../../../../MacOSX.platform/Developer/SDKs/MacOSX.sdk"@))
}

/// The variables that build scripts and proc macros get, which run on
/// the machine that builds.
pub open spec fn host_env_of(
    sdk_root: Seq<PartView>,
    framework_search_paths: Seq<char>,
    gcc_preprocessor_definitions: Seq<char>,
    header_search_paths: Seq<char>,
) -> Seq<(Seq<char>, Seq<char>)> {
    let isysroot = "-isysroot "@ + path_text(macos_sdk_root_of(sdk_root));
    seq![
        ("MAC_FLAGS"@, isysroot),
        ("CFLAGS_x86_64_apple_darwin"@, isysroot),
        ("CXXFLAGS_x86_64_apple_darwin"@, isysroot),
        ("OBJC_INCLUDE_PATH_x86_64_apple_darwin"@, path_text(include_dir_of(sdk_root))),
        ("RUST_BACKTRACE"@, "1"@),
        ("FRAMEWORK_SEARCH_PATHS"@, framework_search_paths),
        ("GCC_PREPROCESSOR_DEFINITIONS"@, gcc_preprocessor_definitions),
        ("HEADER_SEARCH_PATHS"@, header_search_paths),
    ]
}

/// The variables that the build of a library for `triple` gets on top of
/// those of the host.
pub open spec fn target_env_of(
    host_env: Seq<(Seq<char>, Seq<char>)>,
    sdk_root: Seq<PartView>,
    triple: Seq<char>,
) -> Seq<(Seq<char>, Seq<char>)> {
    let isysroot = "-isysroot "@ + path_text(sdk_root);
    with_var(
        with_var(
            with_var(host_env, "CFLAGS_"@ + triple, isysroot),
            "OBJC_INCLUDE_PATH_"@ + triple,
            path_text(include_dir_of(sdk_root)),
        ),
        "LIBRARY_PATH"@,
        path_text(macos_sdk_root_of(sdk_root)) + "/usr/lib"@,
    )
}

/// The variables of the host, for the SDK at `sdk_root`. The SDK, its
/// headers and the SDK of macOS must be directories on `disk`; the first
/// that is not is the error.
pub fn host_env(
    sdk_root: &PathParts,
    framework_search_paths: &str,
    gcc_preprocessor_definitions: &str,
    header_search_paths: &str,
    disk: &Disk,
) -> (r: Result<Vec<(String, String)>, Error>)
    ensures
        match r {
            Ok(env) => {
                &&& disk.dir_at(sdk_root@)
                &&& disk.dir_at(include_dir_of(sdk_root@))
                &&& disk.dir_at(macos_sdk_root_of(sdk_root@))
                &&& env.deep_view() == host_env_of(
                    sdk_root@,
                    framework_search_paths@,
                    gcc_preprocessor_definitions@,
                    header_search_paths@,
                )
            },
            Err(e) => if !disk.dir_at(sdk_root@) {
                e matches Error::SdkRootInvalid { sdk_root: p } && p@ == sdk_root@
            } else if !disk.dir_at(include_dir_of(sdk_root@)) {
                e matches Error::IncludeDirInvalid { include_dir: p } && p@ == include_dir_of(
                    sdk_root@,
                )
            } else {
                !disk.dir_at(macos_sdk_root_of(sdk_root@)) && (
                e matches Error::MacosSdkRootInvalid { macos_sdk_root: p } && p@
                    == macos_sdk_root_of(sdk_root@))
            },
        },
{
    if !disk.is_dir(sdk_root) {
        return Err(Error::SdkRootInvalid { sdk_root: sdk_root.copy() });
    }
    let include_dir = sdk_root.join_slashed("usr/include");
    if !disk.is_dir(&include_dir) {
        return Err(Error::IncludeDirInvalid { include_dir });
    }
    let macos_sdk_root = sdk_root.join_slashed(
        "../../../../MacOSX.platform/Developer/SDKs/MacOSX.sdk",
    );
    if !disk.is_dir(&macos_sdk_root) {
        return Err(Error::MacosSdkRootInvalid { macos_sdk_root });
    }
    let macos_isysroot = "-isysroot ".to_owned().concat(macos_sdk_root.to_string().as_str());
    let env = vec![
        ("MAC_FLAGS".to_owned(), macos_isysroot.clone()),
        ("CFLAGS_x86_64_apple_darwin".to_owned(), macos_isysroot.clone()),
        ("CXXFLAGS_x86_64_apple_darwin".to_owned(), macos_isysroot),
        ("OBJC_INCLUDE_PATH_x86_64_apple_darwin".to_owned(), include_dir.to_string()),
        ("RUST_BACKTRACE".to_owned(), "1".to_owned()),
        ("FRAMEWORK_SEARCH_PATHS".to_owned(), framework_search_paths.to_owned()),
        ("GCC_PREPROCESSOR_DEFINITIONS".to_owned(), gcc_preprocessor_definitions.to_owned()),
        ("HEADER_SEARCH_PATHS".to_owned(), header_search_paths.to_owned()),
    ];
    Ok(env)
}

/// The variables for the build of the library for `arch`, an
/// architecture that Xcode names.
pub fn target_env(host_env: &Vec<(String, String)>, sdk_root: &PathParts, arch: &str) -> (r:
    Result<Vec<(String, String)>, Error>)
    ensures
        match r {
            Ok(env) => triple_of_arch(arch@) matches Some(triple) && env.deep_view()
                == target_env_of(host_env.deep_view(), sdk_root@, triple),
            Err(e) => triple_of_arch(arch@) is None && (e matches Error::ArchInvalid { arch: a }
                && a@ == arch@),
        },
{
    let triple = match arch_triple(arch) {
        Ok(triple) => triple,
        Err(e) => {
            return Err(e);
        },
    };
    let mut env: Vec<(String, String)> = Vec::new();
    let mut i: usize = 0;
    while i < host_env.len()
        invariant
            i <= host_env.len(),
            env.deep_view() == host_env.deep_view().take(i as int),
        decreases host_env.len() - i,
    {
        let ghost before = env.deep_view();
        env.push((host_env[i].0.clone(), host_env[i].1.clone()));
        proof {
            assert(env.deep_view() =~= before.push(host_env.deep_view()[i as int]));
        }
        i += 1;
    }
    proof {
        assert(host_env.deep_view().take(host_env.len() as int) =~= host_env.deep_view());
    }
    let isysroot = "-isysroot ".to_owned().concat(sdk_root.to_string().as_str());
    let include_dir = sdk_root.join_slashed("usr/include");
    let library_path = sdk_root.join_slashed(
        "../../../../MacOSX.platform/Developer/SDKs/MacOSX.sdk",
    ).to_string().concat("/usr/lib");
    insert_var(&mut env, "CFLAGS_".to_owned().concat(triple).as_str(), isysroot.as_str());
    // The flags for C++ go under the name of the flags for C, which the
    // line above has set to the same value.
    insert_var(
        &mut env,
        "OBJC_INCLUDE_PATH_".to_owned().concat(triple).as_str(),
        include_dir.to_string().as_str(),
    );
    insert_var(&mut env, "LIBRARY_PATH", library_path.as_str());
    Ok(env)
}

/// One thing that a command does. A command is a list of these, done in
/// order; each can fail, and a failure ends the run.
#[derive(Debug)]
pub enum Step {
    /// Checks that the Rust compiler is one that builds for iOS.
    VersionCheck,
    /// Loads the configuration and the metadata, and adds `features` to
    /// what the metadata lists. Fails where the metadata says that the
    /// platform is not supported.
    LoadConfig { features: Option<String> },
    /// Checks that the project has been generated.
    EnsureInit,
    OpenInXcode,
    /// Checks the code for each of `targets`; where none is named, for
    /// the target of the connected device.
    Check { targets: Vec<String> },
    /// Builds each of `targets`, with the same fallback.
    Build { targets: Vec<String>, profile: Profile, features: Option<String> },
    /// Builds and then archives each of `targets`, with the same
    /// fallback. The archive has the version of the bundle, with
    /// `build_number` behind it where there is one.
    Archive {
        targets: Vec<String>,
        build_number: Option<u32>,
        profile: Profile,
        features: Option<String>,
        suffix: Option<String>,
    },
    /// Asks which device is meant, and runs the app on it.
    Run { profile: Profile, features: Option<String> },
    /// Lists the connected devices.
    ListDevices,
    /// Runs `pod` with `arguments`, pointed at the project.
    Pod { arguments: Vec<String> },
    /// Compiles the library for `arch`, or for macOS, with `target_env`
    /// as the variables of the build.
    CompileLib {
        arch: String,
        macos: bool,
        profile: Profile,
        force_color: ForceColor,
        target_env: Vec<(String, String)>,
    },
}

pub enum StepView {
    VersionCheck,
    LoadConfig { features: Option<Seq<char>> },
    EnsureInit,
    OpenInXcode,
    Check { targets: Seq<Seq<char>> },
    Build { targets: Seq<Seq<char>>, profile: Profile, features: Option<Seq<char>> },
    Archive {
        targets: Seq<Seq<char>>,
        build_number: Option<u32>,
        profile: Profile,
        features: Option<Seq<char>>,
        suffix: Option<Seq<char>>,
    },
    Run { profile: Profile, features: Option<Seq<char>> },
    ListDevices,
    Pod { arguments: Seq<Seq<char>> },
    CompileLib {
        arch: Seq<char>,
        macos: bool,
        profile: Profile,
        force_color: ForceColor,
        target_env: Seq<(Seq<char>, Seq<char>)>,
    },
}

impl View for Step {
    type V = StepView;

    open spec fn view(&self) -> StepView {
        match self {
            Step::VersionCheck => StepView::VersionCheck,
            Step::LoadConfig { features } => StepView::LoadConfig { features: features.deep_view() },
            Step::EnsureInit => StepView::EnsureInit,
            Step::OpenInXcode => StepView::OpenInXcode,
            Step::Check { targets } => StepView::Check { targets: targets.deep_view() },
            Step::Build { targets, profile, features } => StepView::Build {
                targets: targets.deep_view(),
                profile: *profile,
                features: features.deep_view(),
            },
            Step::Archive { targets, build_number, profile, features, suffix } => StepView::Archive {
                targets: targets.deep_view(),
                build_number: *build_number,
                profile: *profile,
                features: features.deep_view(),
                suffix: suffix.deep_view(),
            },
            Step::Run { profile, features } => StepView::Run {
                profile: *profile,
                features: features.deep_view(),
            },
            Step::ListDevices => StepView::ListDevices,
            Step::Pod { arguments } => StepView::Pod { arguments: arguments.deep_view() },
            Step::CompileLib { arch, macos, profile, force_color, target_env } => StepView::CompileLib {
                arch: arch@,
                macos: *macos,
                profile: *profile,
                force_color: *force_color,
                target_env: target_env.deep_view(),
            },
        }
    }
}

pub open spec fn steps_view(steps: Seq<Step>) -> Seq<StepView> {
    steps.map_values(|s: Step| s@)
}

/// What a command does: the variables that its steps run with, the
/// steps, and the error that the run ends with once they are done, if the
/// command cannot be carried out in full.
#[derive(Debug)]
pub struct Plan {
    pub env: Env,
    pub steps: Vec<Step>,
    pub failure: Option<Error>,
}

/// The first of `arches` that Xcode should not have named.
pub open spec fn first_unknown_arch(arches: Seq<Seq<char>>) -> Option<Seq<char>>
    decreases arches.len(),
{
    if arches.len() == 0 {
        None
    } else if triple_of_arch(arches[0]) is None {
        Some(arches[0])
    } else {
        first_unknown_arch(arches.drop_first())
    }
}

/// One build of the library for each of `arches`, up to the first that
/// is not known.
pub open spec fn compile_steps(
    arches: Seq<Seq<char>>,
    macos: bool,
    profile: Profile,
    force_color: ForceColor,
    host_env: Seq<(Seq<char>, Seq<char>)>,
    sdk_root: Seq<PartView>,
) -> Seq<StepView>
    decreases arches.len(),
{
    if arches.len() == 0 {
        Seq::empty()
    } else {
        match triple_of_arch(arches[0]) {
            Some(triple) => seq![
                StepView::CompileLib {
                    arch: arches[0],
                    macos,
                    profile,
                    force_color,
                    target_env: target_env_of(host_env, sdk_root, triple),
                },
            ] + compile_steps(arches.drop_first(), macos, profile, force_color, host_env, sdk_root),
            None => Seq::empty(),
        }
    }
}

/// Adds to `given` the builds that Xcode's script asks for.
fn compile_libs(
    given: Vec<Step>,
    arches: &Vec<String>,
    macos: bool,
    profile: Profile,
    force_color: ForceColor,
    host_env: &Vec<(String, String)>,
    sdk_root: &PathParts,
) -> (r: (Vec<Step>, Option<Error>))
    ensures
        steps_view(r.0@) == steps_view(given@) + compile_steps(
            arches.deep_view(),
            macos,
            profile,
            force_color,
            host_env.deep_view(),
            sdk_root@,
        ),
        match first_unknown_arch(arches.deep_view()) {
            Some(arch) => r.1 matches Some(Error::ArchInvalid { arch: a }) && a@ == arch,
            None => r.1 is None,
        },
{
    let ghost all = arches.deep_view();
    let mut steps = given;
    let mut i: usize = 0;
    proof {
        assert(all.skip(0) =~= all);
    }
    while i < arches.len()
        invariant
            i <= arches.len(),
            all == arches.deep_view(),
            first_unknown_arch(all) == first_unknown_arch(all.skip(i as int)),
            steps_view(steps@) + compile_steps(
                all.skip(i as int),
                macos,
                profile,
                force_color,
                host_env.deep_view(),
                sdk_root@,
            ) == steps_view(given@) + compile_steps(
                all,
                macos,
                profile,
                force_color,
                host_env.deep_view(),
                sdk_root@,
            ),
        decreases arches.len() - i,
    {
        let ghost rest = all.skip(i as int);
        proof {
            assert(rest.drop_first() =~= all.skip(i + 1));
        }
        match target_env(host_env, sdk_root, arches[i].as_str()) {
            Ok(target_env) => {
                let step = Step::CompileLib {
                    arch: arches[i].clone(),
                    macos,
                    profile,
                    force_color,
                    target_env,
                };
                steps.push(step);
                proof {
                    let tail = compile_steps(
                        all.skip(i + 1),
                        macos,
                        profile,
                        force_color,
                        host_env.deep_view(),
                        sdk_root@,
                    );
                }
            },
            Err(e) => {
                return (steps, Some(e));
            },
        }
        i += 1;
    }
    (steps, None)
}

/// Whether `plan` is what the command `XcodeScript` with these arguments
/// does. The configuration is loaded first. Then cargo's own directory
/// under `home` goes in front of the search path, the SDK is checked on
/// `disk`, and the library is built for each architecture in turn. What
/// fails first (the home directory, the SDK, an architecture) ends the
/// plan.
pub open spec fn script_planned(
    plan: Plan,
    env: Env,
    home: Option<Seq<PartView>>,
    disk: Disk,
    macos: bool,
    sdk_root: Seq<PartView>,
    search_paths: (Seq<char>, Seq<char>, Seq<char>),
    profile: Profile,
    force_color: ForceColor,
    arches: Seq<Seq<char>>,
    features: Option<Seq<char>>,
) -> bool {
    let load = seq![StepView::LoadConfig { features }];
    match home {
        None => plan.env == env && steps_view(plan.steps@) == load && plan.failure matches Some(
            Error::NoHomeDir(_),
        ),
        Some(home) => {
            let host_env = host_env_of(sdk_root, search_paths.0, search_paths.1, search_paths.2);
            &&& plan.env.path@ == path_text(joined(home, slashed(".cargo/bin"@))) + ":"@ + env.path@
            &&& plan.env.home == env.home
            &&& plan.env.term == env.term
            &&& plan.env.ssh_auth_sock == env.ssh_auth_sock
            &&& plan.env.windows == env.windows
            &&& if !disk.dir_at(sdk_root) {
                steps_view(plan.steps@) == load && (
                plan.failure matches Some(Error::SdkRootInvalid { sdk_root: p }) && p@ == sdk_root)
            } else if !disk.dir_at(include_dir_of(sdk_root)) {
                steps_view(plan.steps@) == load && (
                plan.failure matches Some(Error::IncludeDirInvalid { include_dir: p }) && p@
                    == include_dir_of(sdk_root))
            } else if !disk.dir_at(macos_sdk_root_of(sdk_root)) {
                steps_view(plan.steps@) == load && (
                plan.failure matches Some(Error::MacosSdkRootInvalid { macos_sdk_root: p }) && p@
                    == macos_sdk_root_of(sdk_root))
            } else {
                steps_view(plan.steps@) == load + compile_steps(
                    arches,
                    macos,
                    profile,
                    force_color,
                    host_env,
                    sdk_root,
                ) && match first_unknown_arch(arches) {
                    Some(arch) => plan.failure matches Some(Error::ArchInvalid { arch: a }) && a@
                        == arch,
                    None => plan.failure is None,
                }
            }
        },
    }
}

/// Whether `plan` runs with `env` and does `steps`, all of them.
pub open spec fn runs(plan: Plan, env: Env, steps: Seq<StepView>) -> bool {
    plan.env == env && steps_view(plan.steps@) == steps && plan.failure is None
}

/// Whether `plan` is what `command` does when the base variables are
/// `env`, the home directory is `home` and the SDK is as `disk` has it.
pub open spec fn planned(
    plan: Plan,
    command: Command,
    env: Env,
    home: Option<Seq<PartView>>,
    disk: Disk,
) -> bool {
    match command {
        Command::Open => runs(
            plan,
            env,
            seq![
                StepView::VersionCheck,
                StepView::LoadConfig { features: None },
                StepView::EnsureInit,
                StepView::OpenInXcode,
            ],
        ),
        Command::Check { targets, features } => runs(
            plan,
            env,
            seq![
                StepView::VersionCheck,
                StepView::LoadConfig { features: features.deep_view() },
                StepView::Check { targets: targets.deep_view() },
            ],
        ),
        Command::Build { targets, features, profile } => runs(
            plan,
            env,
            seq![
                StepView::LoadConfig { features: features.deep_view() },
                StepView::VersionCheck,
                StepView::EnsureInit,
                StepView::Build {
                    targets: targets.deep_view(),
                    profile,
                    features: features.deep_view(),
                },
            ],
        ),
        Command::Archive { build_number, targets, features, profile, suffix } => runs(
            plan,
            env,
            seq![
                StepView::LoadConfig { features: features.deep_view() },
                StepView::VersionCheck,
                StepView::EnsureInit,
                StepView::Archive {
                    targets: targets.deep_view(),
                    build_number,
                    profile,
                    features: features.deep_view(),
                    suffix: suffix.deep_view(),
                },
            ],
        ),
        Command::Run { features, profile } => runs(
            plan,
            env,
            seq![
                StepView::LoadConfig { features: features.deep_view() },
                StepView::VersionCheck,
                StepView::EnsureInit,
                StepView::Run { profile, features: features.deep_view() },
            ],
        ),
        Command::List => runs(plan, env, seq![StepView::ListDevices]),
        Command::Pod { arguments } => runs(
            plan,
            env,
            seq![
                StepView::LoadConfig { features: None },
                StepView::Pod { arguments: arguments.deep_view() },
            ],
        ),
        Command::XcodeScript {
            macos,
            sdk_root,
            framework_search_paths,
            gcc_preprocessor_definitions,
            header_search_paths,
            profile,
            force_color,
            arches,
            features,
        } => script_planned(
            plan,
            env,
            home,
            disk,
            macos,
            sdk_root@,
            (framework_search_paths@, gcc_preprocessor_definitions@, header_search_paths@),
            profile,
            force_color,
            arches.deep_view(),
            features.deep_view(),
        ),
    }
}

fn copy_text(text: &Option<String>) -> (r: Option<String>)
    ensures
        r.deep_view() == text.deep_view(),
{
    match text {
        Some(s) => Some(s.clone()),
        None => None,
    }
}

impl Input {
    /// What the command does. `env` is what came of reading the base
    /// variables: where they could not be read, that is the error, and
    /// nothing is done. `home` is the user's home directory, if there is
    /// one, and `disk` has what was found at the SDK that Xcode named;
    /// only Xcode's script needs the two.
    pub fn exec(
        self,
        env: Result<Env, EnvError>,
        home: Option<&PathParts>,
        disk: &Disk,
    ) -> (r: Result<Plan, Error>)
        ensures
            match env {
                Err(e) => r matches Err(Error::EnvInitFailed(x)) && x == e,
                Ok(env) => r matches Ok(plan) && planned(
                    plan,
                    self.command,
                    env,
                    match home {
                        Some(h) => Some(h@),
                        None => None,
                    },
                    *disk,
                ),
            },
    {
        let env = match env {
            Ok(env) => env,
            Err(e) => {
                return Err(Error::EnvInitFailed(e));
            },
        };
        match self.command {
            Command::Open => {
                let steps = vec![
                    Step::VersionCheck,
                    Step::LoadConfig { features: None },
                    Step::EnsureInit,
                    Step::OpenInXcode,
                ];
                proof {
                    assert(steps_view(steps@) =~= seq![
                        StepView::VersionCheck,
                        StepView::LoadConfig { features: None },
                        StepView::EnsureInit,
                        StepView::OpenInXcode,
                    ]);
                }
                Ok(Plan { env, steps, failure: None })
            },
            Command::Check { targets, features } => {
                let ghost want = seq![
                    StepView::VersionCheck,
                    StepView::LoadConfig { features: features.deep_view() },
                    StepView::Check { targets: targets.deep_view() },
                ];
                let steps = vec![
                    Step::VersionCheck,
                    Step::LoadConfig { features },
                    Step::Check { targets },
                ];
                proof {
                    assert(steps_view(steps@) =~= want);
                }
                Ok(Plan { env, steps, failure: None })
            },
            Command::Build { targets, features, profile } => {
                let ghost want = seq![
                    StepView::LoadConfig { features: features.deep_view() },
                    StepView::VersionCheck,
                    StepView::EnsureInit,
                    StepView::Build {
                        targets: targets.deep_view(),
                        profile,
                        features: features.deep_view(),
                    },
                ];
                let steps = vec![
                    Step::LoadConfig { features: copy_text(&features) },
                    Step::VersionCheck,
                    Step::EnsureInit,
                    Step::Build { targets, profile, features },
                ];
                proof {
                    assert(steps_view(steps@) =~= want);
                }
                Ok(Plan { env, steps, failure: None })
            },
            Command::Archive { build_number, targets, features, profile, suffix } => {
                let ghost want = seq![
                    StepView::LoadConfig { features: features.deep_view() },
                    StepView::VersionCheck,
                    StepView::EnsureInit,
                    StepView::Archive {
                        targets: targets.deep_view(),
                        build_number,
                        profile,
                        features: features.deep_view(),
                        suffix: suffix.deep_view(),
                    },
                ];
                let steps = vec![
                    Step::LoadConfig { features: copy_text(&features) },
                    Step::VersionCheck,
                    Step::EnsureInit,
                    Step::Archive { targets, build_number, profile, features, suffix },
                ];
                proof {
                    assert(steps_view(steps@) =~= want);
                }
                Ok(Plan { env, steps, failure: None })
            },
            Command::Run { features, profile } => {
                let ghost want = seq![
                    StepView::LoadConfig { features: features.deep_view() },
                    StepView::VersionCheck,
                    StepView::EnsureInit,
                    StepView::Run { profile, features: features.deep_view() },
                ];
                let steps = vec![
                    Step::LoadConfig { features: copy_text(&features) },
                    Step::VersionCheck,
                    Step::EnsureInit,
                    Step::Run { profile, features },
                ];
                proof {
                    assert(steps_view(steps@) =~= want);
                }
                Ok(Plan { env, steps, failure: None })
            },
            Command::List => {
                let steps = vec![Step::ListDevices];
                proof {
                    assert(steps_view(steps@) =~= seq![StepView::ListDevices]);
                }
                Ok(Plan { env, steps, failure: None })
            },
            Command::Pod { arguments } => {
                let ghost want = seq![
                    StepView::LoadConfig { features: None },
                    StepView::Pod { arguments: arguments.deep_view() },
                ];
                let steps = vec![Step::LoadConfig { features: None }, Step::Pod { arguments }];
                proof {
                    assert(steps_view(steps@) =~= want);
                }
                Ok(Plan { env, steps, failure: None })
            },
            Command::XcodeScript {
                macos,
                sdk_root,
                framework_search_paths,
                gcc_preprocessor_definitions,
                header_search_paths,
                profile,
                force_color,
                arches,
                features,
            } => {
                let ghost load = seq![StepView::LoadConfig { features: features.deep_view() }];
                let steps = vec![Step::LoadConfig { features }];
                proof {
                    assert(steps_view(steps@) =~= load);
                }
                let home = match home {
                    Some(home) => home,
                    None => {
                        return Ok(Plan { env, steps, failure: Some(Error::NoHomeDir(NoHomeDir)) });
                    },
                };
                // What Xcode hands over as the search path lacks what the
                // user's profile adds to it.
                let env = env.prepend_to_path(
                    home.join_slashed(".cargo/bin").to_string().as_str(),
                );
                let host_env = match host_env(
                    &sdk_root,
                    framework_search_paths.as_str(),
                    gcc_preprocessor_definitions.as_str(),
                    header_search_paths.as_str(),
                    disk,
                ) {
                    Ok(host_env) => host_env,
                    Err(e) => {
                        return Ok(Plan { env, steps, failure: Some(e) });
                    },
                };
                let (steps, failure) = compile_libs(
                    steps,
                    &arches,
                    macos,
                    profile,
                    force_color,
                    &host_env,
                    &sdk_root,
                );
                Ok(Plan { env, steps, failure })
            },
        }
    }
}

} // verus!
