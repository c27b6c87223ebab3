use cargo_mobile::android::bundletool::{self, bundle_tool_jar_info, BundletoolJarInfo};
use cargo_mobile::android::config::{
    Config, Error as ConfigError, Metadata, ProjectDirInvalid, Raw,
};
use cargo_mobile::android::device::{
    adb, bundletool_command, gradlew, install_bundletool, Device, RunError, Stage,
};
use cargo_mobile::android::env::{Env, Error as EnvError, VersionError as SdkVersionError};
use cargo_mobile::android::jnilibs::{self, JniLibs, SymlinkLibError};
use cargo_mobile::android::ndk::{
    self, host_tag, revision_numbers, version_from_revision, Binutil, Compiler,
    MissingToolError, Version, VersionError,
};
use cargo_mobile::android::project;
use cargo_mobile::android::target::Target;
use cargo_mobile::config::app::App;
use cargo_mobile::decimal::ParseIntError;
use cargo_mobile::env::{Env as CoreEnv, Error as CoreError, ExplicitEnv, VarError};
use cargo_mobile::opts::{FilterLevel, NoiseLevel, Profile, ReinstallDeps};
use cargo_mobile::os::Host;
use cargo_mobile::util::command::{Arg, Command};
use cargo_mobile::util::disk::{Disk, Kind};
use cargo_mobile::util::ln::TargetStyle;
use cargo_mobile::util::path::{NormalizationError, PathParts};
use cargo_mobile::util::version::VersionTriple;

fn path(text: &str) -> PathParts {
    PathParts::from_slashed(text)
}

fn app() -> App {
    App {
        root_dir: path("/work/my app"),
        name: String::from("MyApp"),
        domain: String::from("com.example"),
        asset_dir: path("assets"),
    }
}

fn config() -> Config {
    Config::from_raw(app(), None, Ok(path("/unused"))).unwrap()
}

fn core_env() -> CoreEnv {
    CoreEnv {
        home: String::from("/home/me"),
        path: String::from("/usr/bin"),
        term: Some(String::from("xterm")),
        ssh_auth_sock: None,
        windows: None,
    }
}

fn env() -> Env {
    Env {
        base: core_env(),
        sdk_root: path("/sdk"),
        ndk: ndk::Env { ndk_home: path("/ndk") },
    }
}

fn plain(command: &Command) -> Vec<String> {
    command
        .args
        .iter()
        .map(|arg| match arg {
            Arg::Plain(s) => s.clone(),
            Arg::Parsed(s) => format!("<{}>", s),
        })
        .collect()
}

fn dirs(paths: &[&str]) -> Disk {
    Disk { entries: paths.iter().map(|p| (path(p), Kind::Dir)).collect() }
}

#[test]
fn host_tags_and_tool_names() {
    assert_eq!(host_tag(Host::MacOs), "darwin-x86_64");
    assert_eq!(host_tag(Host::Linux), "linux-x86_64");
    assert_eq!(host_tag(Host::Windows32), "windows");
    assert_eq!(host_tag(Host::Windows64), "windows-x86_64");
    assert_eq!(Compiler::Clang.as_str(Host::Linux), "clang");
    assert_eq!(Compiler::Clangxx.as_str(Host::MacOs), "clang++");
    assert_eq!(Compiler::Clang.as_str(Host::Windows64), "clang.cmd");
    assert_eq!(Compiler::Clangxx.as_str(Host::Windows32), "clang++.cmd");
    assert_eq!(Binutil::Ar.as_str(Host::Linux), "ar");
    assert_eq!(Binutil::Ld.as_str(Host::Linux), "ld");
    assert_eq!(Binutil::Ar.as_str(Host::Windows64), "ar.exe");
    assert_eq!(Binutil::Ld.as_str(Host::Windows64), "ld.exe");
    assert_eq!(ndk::readelf(Host::Linux), "readelf");
    assert_eq!(ndk::readelf(Host::Windows64), "readelf.exe");
}

#[test]
fn ndk_versions_have_letters() {
    assert_eq!(Version { major: 21, minor: 0 }.to_string(), "r21");
    assert_eq!(Version { major: 21, minor: 1 }.to_string(), "r21b");
    assert_eq!(Version { major: 21, minor: 4 }.to_string(), "r21e");
    assert_eq!(Version { major: 19, minor: 25 }.to_string(), "r19z");
    assert!(Version { major: 19, minor: 0 }.at_least(&Version { major: 19, minor: 0 }));
    assert!(Version { major: 20, minor: 0 }.at_least(&Version { major: 19, minor: 9 }));
    assert!(!Version { major: 18, minor: 9 }.at_least(&Version { major: 19, minor: 0 }));
}

#[test]
fn revisions_give_their_leading_numbers() {
    assert_eq!(revision_numbers("21.3.6528147", 2), Ok(vec![21, 3]));
    assert_eq!(revision_numbers("21.3.6528147", 3), Ok(vec![21, 3, 6528147]));
    assert_eq!(revision_numbers("21", 2), Ok(vec![21]));
    assert_eq!(revision_numbers("21.3.x", 2), Ok(vec![21, 3]));
    assert_eq!(revision_numbers("21.3", 0), Ok(vec![]));
    assert_eq!(
        revision_numbers("21.x.5", 3),
        Err((String::from("x"), ParseIntError::InvalidDigit))
    );
    assert_eq!(revision_numbers("", 2), Err((String::new(), ParseIntError::Empty)));
}

#[test]
fn ndk_version_from_revision() {
    let file = path("/ndk/source.properties");
    assert_eq!(
        version_from_revision("21.3.6528147", &file).unwrap(),
        Version { major: 21, minor: 3 }
    );
    match version_from_revision("21", &file) {
        Err(VersionError::TooFewComponents { version, .. }) => assert_eq!(version, "21"),
        other => panic!("{:?}", other),
    }
    match version_from_revision("21.beta", &file) {
        Err(VersionError::ComponentNotNumerical { component, cause, .. }) => {
            assert_eq!(component, "beta");
            assert_eq!(cause, ParseIntError::InvalidDigit);
        }
        other => panic!("{:?}", other),
    }
    assert_eq!(
        version_from_revision("21", &file).unwrap_err().to_string(),
        "Version \"/ndk/source.properties\" in properties file \"21\" didn't have as many components as expected."
    );
    assert_eq!(
        version_from_revision("x.1", &file).unwrap_err().to_string(),
        "Properties at \"/ndk/source.properties\" contained a version component \"x\" that wasn't a valid number: invalid digit found in string"
    );
}

#[test]
fn ndk_version_from_its_properties_file() {
    let ndk = ndk::Env { ndk_home: path("/ndk") };
    assert_eq!(ndk.version_path().to_string(), "/ndk/source.properties");
    let contents = b"Pkg.Desc = Android NDK\nPkg.Revision = 21.3.6528147\n".to_vec();
    assert_eq!(ndk.version(Ok(contents)).unwrap(), Version { major: 21, minor: 3 });
    assert!(matches!(
        ndk.version(Ok(b"Pkg.Desc = Android NDK\n".to_vec())),
        Err(VersionError::VersionMissing { .. })
    ));
    match ndk.version(Err(String::from("No such file"))) {
        Err(VersionError::OpenFailed { path, cause }) => {
            assert_eq!(path.to_string(), "/ndk/source.properties");
            assert_eq!(cause, "No such file");
        }
        other => panic!("{:?}", other),
    }
    assert!(matches!(
        ndk.version(Ok(b"Pkg.Revision = \\u00zz\n".to_vec())),
        Err(VersionError::ParseFailed { .. })
    ));
    // The last entry of a key counts.
    let twice = b"Pkg.Revision = 19.0\nPkg.Revision: 22.1\n".to_vec();
    assert_eq!(ndk.version(Ok(twice)).unwrap(), Version { major: 22, minor: 1 });
}

#[test]
fn an_ndk_must_be_there_and_new_enough() {
    let props = |revision: &str| Ok(format!("Pkg.Revision = {}\n", revision).into_bytes());
    let disk = dirs(&["/ndk"]);
    assert!(ndk::Env::new(Ok(path("/ndk")), &disk, props("21.3.1")).is_ok());
    assert!(ndk::Env::new(Ok(path("/ndk")), &disk, props("19.0.1")).is_ok());
    match ndk::Env::new(Ok(path("/ndk")), &disk, props("18.1.1")) {
        Err(ndk::Error::VersionTooLow { you_have, you_need }) => {
            assert_eq!(you_have, Version { major: 18, minor: 1 });
            assert_eq!(you_need, Version { major: 19, minor: 0 });
        }
        other => panic!("{:?}", other),
    }
    assert!(matches!(
        ndk::Env::new(Err(VarError::NotPresent), &disk, props("21.3.1")),
        Err(ndk::Error::NdkHomeNotSet(VarError::NotPresent))
    ));
    assert!(matches!(
        ndk::Env::new(Ok(path("/elsewhere")), &disk, props("21.3.1")),
        Err(ndk::Error::NdkHomeNotADir)
    ));
    assert!(matches!(
        ndk::Env::new(Ok(path("/ndk")), &disk, Err(String::from("gone"))),
        Err(ndk::Error::VersionLookupFailed(VersionError::OpenFailed { .. }))
    ));
    assert_eq!(
        ndk::Env::new(Ok(path("/ndk")), &disk, props("18.1.1")).unwrap_err().to_string(),
        "At least NDK r19 is required (you currently have NDK r18b)"
    );
    assert_eq!(
        ndk::Error::NdkHomeNotSet(VarError::NotPresent).to_string(),
        "Have you installed the NDK? The `NDK_HOME` environment variable isn't set, and is required: environment variable not found"
    );
}

#[test]
fn ndk_tools_are_looked_for_step_by_step() {
    let ndk = ndk::Env { ndk_home: path("/ndk") };
    let prebuilt = "/ndk/toolchains/llvm/prebuilt/linux-x86_64";
    let bin = "/ndk/toolchains/llvm/prebuilt/linux-x86_64/bin";
    assert_eq!(ndk.home().to_string(), "/ndk");
    assert_eq!(ndk.prebuilt_dir_path(Host::Linux).to_string(), prebuilt);

    let nothing = Disk::new();
    let err = ndk.tool_dir(Host::Linux, &nothing).unwrap_err();
    assert_eq!(err.name, "prebuilt toolchain");
    assert_eq!(err.tried_path.to_string(), prebuilt);
    assert_eq!(
        err.to_string(),
        format!("Missing tool `prebuilt toolchain`; tried at {:?}.", prebuilt)
    );

    let only_prebuilt = dirs(&[prebuilt]);
    assert_eq!(ndk.prebuilt_dir(Host::Linux, &only_prebuilt).unwrap().to_string(), prebuilt);
    let err = ndk.tool_dir(Host::Linux, &only_prebuilt).unwrap_err();
    assert_eq!(err.name, "tools");
    assert_eq!(err.tried_path.to_string(), bin);

    let mut disk = dirs(&[prebuilt, bin]);
    assert_eq!(ndk.tool_dir(Host::Linux, &disk).unwrap().to_string(), bin);
    let err = ndk
        .compiler_path(Compiler::Clang, "aarch64-linux-android", 24, Host::Linux, &disk)
        .unwrap_err();
    assert_eq!(err.name, "clang");
    assert_eq!(err.tried_path.to_string(), format!("{}/aarch64-linux-android24-clang", bin));

    for file in ["aarch64-linux-android24-clang++", "aarch64-linux-android-ar", "aarch64-linux-android-readelf"] {
        disk.entries.push((path(&format!("{}/{}", bin, file)), Kind::File));
    }
    assert_eq!(
        ndk.compiler_path(Compiler::Clangxx, "aarch64-linux-android", 24, Host::Linux, &disk)
            .unwrap()
            .to_string(),
        format!("{}/aarch64-linux-android24-clang++", bin)
    );
    assert_eq!(
        ndk.binutil_path(Binutil::Ar, "aarch64-linux-android", Host::Linux, &disk).unwrap().to_string(),
        format!("{}/aarch64-linux-android-ar", bin)
    );
    assert!(ndk.binutil_path(Binutil::Ld, "aarch64-linux-android", Host::Linux, &disk).is_err());
    assert_eq!(
        ndk.readelf_path("aarch64-linux-android", Host::Linux, &disk).unwrap().to_string(),
        format!("{}/aarch64-linux-android-readelf", bin)
    );
    let readelf = ndk
        .readelf_command(&path("/out/libapp.so"), "aarch64-linux-android", Host::Linux, &disk)
        .unwrap();
    assert_eq!(readelf.program, format!("{}/aarch64-linux-android-readelf", bin));
    assert!(!readelf.pure);
    assert_eq!(plain(&readelf), ["-d", "/out/libapp.so"]);
    assert!(matches!(
        ndk.readelf_command(&path("/out/libapp.so"), "x86_64-linux-android", Host::Linux, &disk),
        Err(ndk::RequiredLibsError::MissingTool(missing)) if missing.name == "readelf"
    ));
    let lib = "/ndk/sources/cxx-stl/llvm-libc++/libs/arm64-v8a/libc++_shared.so";
    let err = ndk.libcxx_shared_path("arm64-v8a", &disk).unwrap_err();
    assert_eq!(err.name, "libc++_shared.so");
    assert_eq!(err.tried_path.to_string(), lib);
    disk.entries.push((path(lib), Kind::File));
    assert_eq!(ndk.libcxx_shared_path("arm64-v8a", &disk).unwrap().to_string(), lib);
    assert!(MissingToolError::check_file(path("/x"), "x", &disk).is_err());
    assert!(MissingToolError::check_dir(path(bin), "x", &disk).is_ok());
}

#[test]
fn required_libs_are_read_from_readelf() {
    let output = " 0x0000000000000001 (NEEDED)             Shared library: [libc.so]\n 0x0000000000000001 (NEEDED)             Shared library: [libm.so]\n 0x000000000000000e (SONAME)             Library soname: [libapp.so]\n 0x0000000000000001 (NEEDED)             Shared library: [libc.so]\n";
    assert_eq!(ndk::Env::required_libs(output).unwrap(), vec!["libc.so", "libm.so"]);
    assert_eq!(ndk::Env::required_libs("").unwrap(), Vec::<String>::new());
    assert_eq!(
        ndk::libs_of_matches(&vec![
            vec![Some("x".into()), Some("a".into())],
            vec![Some("x".into())],
            vec![Some("x".into()), None],
            vec![Some("x".into()), Some("b".into())],
            vec![Some("x".into()), Some("a".into())],
        ]),
        vec!["a", "b"]
    );
}

#[test]
fn the_android_environment_is_put_together_in_order() {
    let disk = dirs(&["/sdk", "/old-sdk"]);
    let ndk_env = || Ok(ndk::Env { ndk_home: path("/ndk") });
    let made = Env::new(Ok(core_env()), Ok(path("/sdk")), Some(path("/old-sdk")), &disk, ndk_env())
        .unwrap();
    assert_eq!(made.sdk_root(), "/sdk");
    assert_eq!(made.path(), "/usr/bin");
    let made = Env::new(Ok(core_env()), Err(VarError::NotPresent), Some(path("/old-sdk")), &disk, ndk_env())
        .unwrap();
    assert_eq!(made.sdk_root(), "/old-sdk");
    let made = Env::new(Ok(core_env()), Ok(path("/gone")), Some(path("/old-sdk")), &disk, ndk_env())
        .unwrap();
    assert_eq!(made.sdk_root(), "/old-sdk");
    assert!(matches!(
        Env::new(Ok(core_env()), Ok(path("/gone")), Some(path("/gone-too")), &disk, ndk_env()),
        Err(EnvError::AndroidSdkRootNotADir)
    ));
    assert!(matches!(
        Env::new(Ok(core_env()), Err(VarError::NotPresent), None, &disk, ndk_env()),
        Err(EnvError::AndroidSdkRootNotSet(VarError::NotPresent))
    ));
    assert!(matches!(
        Env::new(
            Err(CoreError::PathNotSet(VarError::NotPresent)),
            Err(VarError::NotPresent),
            None,
            &disk,
            Err(ndk::Error::NdkHomeNotADir)
        ),
        Err(EnvError::CoreEnvError(_))
    ));
    let err = Env::new(Ok(core_env()), Ok(path("/sdk")), None, &disk, Err(ndk::Error::NdkHomeNotADir))
        .unwrap_err();
    assert!(matches!(err, EnvError::NdkEnvError(ndk::Error::NdkHomeNotADir)));
    assert!(err.sdk_or_ndk_issue());
    assert!(!EnvError::CoreEnvError(CoreError::PathNotSet(VarError::NotPresent)).sdk_or_ndk_issue());
    assert_eq!(err.report().msg, "Failed to initialize NDK environment");
    assert_eq!(
        EnvError::AndroidSdkRootNotADir.report().msg,
        "Failed to initialize Android environment"
    );
    assert_eq!(
        EnvError::AndroidSdkRootNotADir.to_string(),
        "Have you installed the Android SDK? The `ANDROID_SDK_ROOT` environment variable is set, but doesn't point to an existing directory."
    );
}

#[test]
fn the_sdk_version_has_three_components() {
    let env = env();
    assert_eq!(env.sdk_version_path().to_string(), "/sdk/tools/source.properties");
    assert_eq!(
        env.sdk_version(Ok(b"Pkg.Revision=26.1.1\n".to_vec())).unwrap(),
        VersionTriple::new(26, 1, 1)
    );
    match env.sdk_version(Ok(b"Pkg.Revision=26.1\n".to_vec())) {
        Err(e @ SdkVersionError::TooFewComponents { .. }) => assert_eq!(
            e.to_string(),
            "Version \"26.1\" in properties file \"/sdk/tools/source.properties\" didn't have as many components as expected."
        ),
        other => panic!("{:?}", other),
    }
    assert!(matches!(
        env.sdk_version(Ok(b"Other=1\n".to_vec())),
        Err(SdkVersionError::VersionMissing { .. })
    ));
    assert!(matches!(
        env.sdk_version(Err(String::from("gone"))),
        Err(SdkVersionError::OpenFailed { .. })
    ));
    assert!(matches!(
        env.sdk_version(Ok(b"Pkg.Revision=26.x.1\n".to_vec())),
        Err(SdkVersionError::ComponentNotNumerical { .. })
    ));
}

#[test]
fn android_commands_get_the_android_variables() {
    let vars = env().explicit_env();
    let expected: Vec<(String, String)> = [
        ("HOME", "/home/me"),
        ("PATH", "/usr/bin"),
        ("TERM", "xterm"),
        ("ANDROID_SDK_ROOT", "/sdk"),
        ("NDK_HOME", "/ndk"),
    ]
    .iter()
    .map(|(k, v)| (k.to_string(), v.to_string()))
    .collect();
    assert_eq!(vars, expected);
}

#[test]
fn android_config_has_defaults() {
    let config = config();
    assert_eq!(config.min_sdk_version(), 24);
    assert!(config.vulkan_validation);
    assert_eq!(config.project_dir.to_string(), "gen/android");
    assert_eq!(config.project_dir().to_string(), "/work/my app/gen/android/MyApp");
    assert_eq!(config.so_name(), "libmy_app.so");
    assert_eq!(config.app().name(), "MyApp");
    assert!(!config.project_dir_exists(&Disk::new()));
    assert!(config.project_dir_exists(&dirs(&["/work/my app/gen/android/MyApp"])));
}

#[test]
fn android_config_checks_the_project_directory() {
    let raw = |dir: &str| {
        Some(Raw {
            min_sdk_version: Some(28),
            vulkan_validation: Some(false),
            project_dir: Some(dir.to_string()),
            no_default_features: None,
            features: None,
        })
    };
    assert_eq!(
        Config::project_dir_to_check(&app(), &raw("platform/android")).unwrap().to_string(),
        "/work/my app/platform/android"
    );
    assert!(Config::project_dir_to_check(&app(), &None).is_none());
    let config =
        Config::from_raw(app(), raw("platform/android"), Ok(path("/work/my app/platform/android")))
            .unwrap();
    assert_eq!(config.min_sdk_version(), 28);
    assert!(!config.vulkan_validation);
    assert_eq!(config.project_dir().to_string(), "/work/my app/platform/android/MyApp");

    match Config::from_raw(app(), raw("../out"), Ok(path("/work/out"))) {
        Err(ConfigError::ProjectDirInvalid(e @ ProjectDirInvalid::OutsideOfAppRoot { .. })) => {
            assert_eq!(e.to_string(), "\"../out\" is outside of the app root \"/work/my app\"");
        }
        other => panic!("{:?}", other),
    }
    match Config::from_raw(app(), raw("my dir"), Ok(path("/work/my app/my dir"))) {
        Err(e @ ConfigError::ProjectDirInvalid(ProjectDirInvalid::ContainsSpaces { .. })) => {
            let report = e.report("Config invalid");
            assert_eq!(report.msg, "Config invalid");
            assert_eq!(
                report.details,
                "`android.project-dir` invalid: \"my dir\" contains spaces, which the NDK is remarkably intolerant of"
            );
        }
        other => panic!("{:?}", other),
    }
    let failed = Err(NormalizationError::PathAbsFailed {
        path: path("x"),
        cause: String::from("bad"),
    });
    match Config::from_raw(app(), raw("x"), failed) {
        Err(ConfigError::ProjectDirInvalid(e @ ProjectDirInvalid::NormalizationFailed { .. })) => {
            assert_eq!(
                e.to_string(),
                "\"x\" couldn't be normalized: Failed to normalize non-existent path \"x\": bad"
            );
        }
        other => panic!("{:?}", other),
    }
}

#[test]
fn android_metadata_getters() {
    let default = Metadata::default();
    assert!(default.supported());
    assert!(!default.no_default_features());
    assert!(default.features().is_none());
    assert!(default.app_sources().is_empty());
    assert!(default.app_plugins().is_none());
    assert!(default.project_dependencies().is_none());
    assert!(default.app_dependencies().is_none());
    assert!(default.app_dependencies_platform().is_none());
    assert!(default.asset_packs().is_none());
    assert!(!default.has_code());
    assert!(cargo_mobile::android::config::default_true());
    let metadata = Metadata {
        supported: false,
        features: Some(vec![String::from("vulkan")]),
        app_sources: Some(vec![String::from("java/Main.java")]),
        app_dependencies: Some(vec![]),
        ..Metadata::default()
    };
    assert!(!metadata.supported());
    assert!(metadata.no_default_features());
    assert_eq!(metadata.features().unwrap(), ["vulkan"]);
    assert_eq!(metadata.app_sources(), ["java/Main.java"]);
    assert_eq!(metadata.app_dependencies().unwrap().len(), 0);
    assert!(metadata.has_code());
}

#[test]
fn names_take_the_cases_of_the_build_tools() {
    let env = env();
    let task = |name: &str, arch: &'static str, profile| {
        let app = App { name: name.to_string(), ..app() };
        let config = Config::from_raw(app, None, Ok(path("/unused"))).unwrap();
        let target = Target { triple: "t", abi: "a", arch };
        let device = Device::new("S".into(), "N".into(), "N".into(), &target);
        (config.so_name(), plain(&device.build_aab(&config, &env, profile)).pop().unwrap())
    };
    assert_eq!(
        task("MyApp", "arm64", Profile::Debug),
        ("libmy_app.so".to_string(), ":app:bundleArm64Debug".to_string())
    );
    assert_eq!(
        task("my-cool app", "x86_64", Profile::Release),
        ("libmy_cool_app.so".to_string(), ":app:bundleX8664Release".to_string())
    );
    assert_eq!(
        task("XMLHttpRequest", "armv7", Profile::Release),
        ("libxml_http_request.so".to_string(), ":app:bundleArmv7Release".to_string())
    );
}

#[test]
fn bundletool_archive_names() {
    let info = bundle_tool_jar_info();
    assert_eq!(info.version, "1.8.0");
    assert_eq!(info.file_name(), "bundletool-all-1.8.0.jar");
    assert_eq!(info.jar(), "bundletool-all-1.8.0.jar");
    assert_eq!(info.jar_path(), "gen/android/bundletool-all-1.8.0.jar");
    assert_eq!(
        info.download_url(),
        "https://github.com/google/bundletool/releases/download/1.8.0/bundletool-all-1.8.0.jar"
    );
    assert_eq!(
        info.installation_path(&path("/home/me/.cargo-mobile/tools")).to_string(),
        "/home/me/.cargo-mobile/tools/bundletool-all-1.8.0.jar"
    );
    assert_eq!(BundletoolJarInfo::new("2.0.0").file_name(), "bundletool-all-2.0.0.jar");
    let run = info.run_command(&path("/t"));
    assert_eq!(run.program, "java");
    assert_eq!(plain(&run), ["-jar", "/t/bundletool-all-1.8.0.jar"]);
    assert_eq!(bundletool::command(Host::MacOs, &path("/t")).program, "bundletool");
    assert_eq!(bundletool::command(Host::Linux, &path("/t")).program, "java");
    let jar = Disk { entries: vec![(path("/t/bundletool-all-1.8.0.jar"), Kind::File)] };
    assert!(bundletool::install(ReinstallDeps::No, &path("/t"), &Disk::new()));
    assert!(!bundletool::install(ReinstallDeps::No, &path("/t"), &jar));
    assert!(bundletool::install(ReinstallDeps::Yes, &path("/t"), &jar));
    assert_eq!(bundletool_command(Host::MacOs), "bundletool");
    assert_eq!(bundletool_command(Host::Linux), "java -jar gen/android/bundletool-all-1.8.0.jar");
    assert!(!install_bundletool(Host::MacOs, &path("/x"), &Disk::new()));
    assert!(install_bundletool(Host::Linux, &path("/x"), &Disk::new()));
    assert!(!install_bundletool(Host::Linux, &path("/t/bundletool-all-1.8.0.jar"), &jar));
}

#[test]
fn device_paths_and_names() {
    let config = config();
    let project = "/work/my app/gen/android/MyApp";
    assert_eq!(Device::suffix(Profile::Debug), "debug");
    assert_eq!(Device::suffix(Profile::Release), "release-unsigned");
    assert_eq!(
        Device::apk_path(&config, Profile::Debug, "arm64").to_string(),
        format!("{}/app/build/outputs/apk/arm64/debug/app-arm64-debug.apk", project)
    );
    assert_eq!(
        Device::apks_path(&config, Profile::Release, "arm64").to_string(),
        format!("{}/app/build/outputs/apk/arm64/release/app-arm64-release-unsigned.apks", project)
    );
    assert_eq!(
        Device::aab_path(&config, Profile::Release, "arm64").to_string(),
        format!("{}/app/build/outputs/bundle/arm64release/app-arm64-release-unsigned.aab", project)
    );
    let target = Target { triple: "aarch64-linux-android", abi: "arm64-v8a", arch: "arm64" };
    let device = Device::new("S1".into(), "Pixel".into(), "Pixel".into(), &target);
    assert_eq!(device.to_string(), "Pixel");
    assert_eq!(device.target().abi, "arm64-v8a");
    let device = Device::new("S1".into(), "Phone".into(), "Pixel 4".into(), &target);
    assert_eq!(device.to_string(), "Phone (Pixel 4)");
}

#[test]
fn gradle_and_adb_commands() {
    let config = config();
    let env = env();
    let gradle = gradlew(&config, &env);
    assert_eq!(gradle.program, "/work/my app/gen/android/MyApp/gradlew");
    assert!(gradle.pure);
    assert_eq!(gradle.env, env.explicit_vars());
    assert_eq!(plain(&gradle), ["--project-dir", "/work/my app/gen/android/MyApp"]);
    let adb = adb(&env, "S1");
    assert_eq!(adb.program, "adb");
    assert!(adb.pure);
    assert_eq!(plain(&adb), ["-s", "S1"]);
}

#[test]
fn a_run_without_bundle_assembles_and_installs() {
    let config = config();
    let env = env();
    let target = Target { triple: "aarch64-linux-android", abi: "arm64-v8a", arch: "arm64" };
    let device = Device::new("S1".into(), "Pixel".into(), "Pixel".into(), &target);
    let steps = device.run(&config, &env, NoiseLevel::Polite, Profile::Debug, None, false, Host::Linux);
    let stages: Vec<Stage> = steps.iter().map(|s| s.stage).collect();
    assert_eq!(
        stages,
        [
            Stage::CleanLinks,
            Stage::Assemble,
            Stage::InstallApk,
            Stage::Start,
            Stage::WakeScreen,
            Stage::Logcat
        ]
    );
    assert!(steps[0].command.is_none());
    let project = "/work/my app/gen/android/MyApp";
    assert_eq!(
        plain(steps[1].command.as_ref().unwrap()),
        ["--project-dir", project, "assembleArm64Debug", "--warn"]
    );
    assert_eq!(
        plain(steps[2].command.as_ref().unwrap()),
        vec![
            "-s".to_string(),
            "S1".to_string(),
            "install".to_string(),
            format!("{}/app/build/outputs/apk/arm64/debug/app-arm64-debug.apk", project)
        ]
    );
    assert_eq!(
        plain(steps[3].command.as_ref().unwrap()),
        ["-s", "S1", "shell", "am", "start", "-n", "example.com.my_app/android.app.NativeActivity"]
    );
    assert_eq!(
        plain(steps[4].command.as_ref().unwrap()),
        ["-s", "S1", "shell", "input", "keyevent", "KEYCODE_WAKEUP"]
    );
    assert_eq!(
        plain(steps[5].command.as_ref().unwrap()),
        ["-s", "S1", "logcat", "-v", "color", "-s", "MyApp:W"]
    );
}

#[test]
fn a_run_with_bundle_goes_through_bundletool() {
    let config = config();
    let env = env();
    let target = Target { triple: "x86_64-linux-android", abi: "x86_64", arch: "x86_64" };
    let device = Device::new("E1".into(), "Emu".into(), "Emu".into(), &target);
    let steps = device.run(
        &config,
        &env,
        NoiseLevel::FranklyQuitePedantic,
        Profile::Release,
        Some(FilterLevel::Error),
        true,
        Host::Linux,
    );
    let stages: Vec<Stage> = steps.iter().map(|s| s.stage).collect();
    assert_eq!(
        stages,
        [
            Stage::InstallBundletool,
            Stage::CleanApks,
            Stage::BuildAab,
            Stage::BuildApks,
            Stage::InstallApks,
            Stage::Start,
            Stage::WakeScreen,
            Stage::Logcat
        ]
    );
    let project = "/work/my app/gen/android/MyApp";
    let apks = format!("{}/app/build/outputs/apk/x86_64/release/app-x86_64-release-unsigned.apks", project);
    let aab = format!("{}/app/build/outputs/bundle/x86_64release/app-x86_64-release-unsigned.aab", project);
    let clean = steps[1].command.as_ref().unwrap();
    assert_eq!(clean.program, "rm");
    assert!(!clean.pure);
    assert_eq!(plain(clean), vec!["-f".to_string(), format!("<{}>", apks)]);
    assert_eq!(
        plain(steps[2].command.as_ref().unwrap()),
        ["--project-dir", project, ":app:bundleX8664Release"]
    );
    let build = steps[3].command.as_ref().unwrap();
    assert_eq!(build.program, "java");
    assert_eq!(
        plain(build),
        vec![
            "-jar".to_string(),
            "gen/android/bundletool-all-1.8.0.jar".to_string(),
            "<build-apks>".to_string(),
            format!("<--bundle={}>", aab),
            format!("<--output={}>", apks),
            "<--connected-device>".to_string(),
        ]
    );
    assert_eq!(
        plain(steps[4].command.as_ref().unwrap()),
        vec![
            "-jar".to_string(),
            "gen/android/bundletool-all-1.8.0.jar".to_string(),
            "<install-apks>".to_string(),
            format!("<--apks={}>", apks),
        ]
    );
    assert_eq!(
        plain(steps[7].command.as_ref().unwrap()),
        ["-s", "E1", "logcat", "-v", "color", "-s", "MyApp:E"]
    );
    let mac = device.build_apks_from_aab(&config, Profile::Debug, Host::MacOs);
    assert_eq!(mac.program, "bundletool");
}

#[test]
fn noise_decides_flags_and_filters() {
    let config = config();
    let env = env();
    let target = Target { triple: "t", abi: "a", arch: "arm" };
    let device = Device::new("S".into(), "N".into(), "N".into(), &target);
    let flag = |noise| plain(&device.build_apk(&config, &env, noise, Profile::Release)).pop().unwrap();
    assert_eq!(flag(NoiseLevel::Polite), "--warn");
    assert_eq!(flag(NoiseLevel::LoudAndProud), "--info");
    assert_eq!(flag(NoiseLevel::FranklyQuitePedantic), "--debug");
    let filter = |noise, level| plain(&device.logcat(&config, &env, noise, level)).pop().unwrap();
    assert_eq!(filter(NoiseLevel::Polite, None), "MyApp:W");
    assert_eq!(filter(NoiseLevel::LoudAndProud, None), "MyApp:I");
    assert_eq!(filter(NoiseLevel::FranklyQuitePedantic, None), "MyApp:V");
    assert_eq!(filter(NoiseLevel::Polite, Some(FilterLevel::Debug)), "MyApp:D");
}

#[test]
fn run_errors_by_stage() {
    let failed = |stage| RunError::command_failed(stage, String::from("exit 1")).report();
    assert_eq!(failed(Stage::Assemble).msg, "Failed to assemble APK");
    assert_eq!(failed(Stage::InstallApk).msg, "Failed to install APK");
    assert_eq!(failed(Stage::CleanApks).msg, "Failed to clean old APKS");
    assert_eq!(failed(Stage::BuildAab).msg, "Failed to build AAB");
    assert_eq!(failed(Stage::BuildApks).msg, "Failed to build APKS from AAB");
    assert_eq!(failed(Stage::InstallApks).msg, "Failed to install APK from AAB");
    assert_eq!(failed(Stage::Start).msg, "Failed to start app on device");
    assert_eq!(failed(Stage::WakeScreen).msg, "Failed to wake device screen");
    assert_eq!(failed(Stage::Logcat).msg, "Failed to log output");
    assert_eq!(failed(Stage::Logcat).details, "exit 1");
}

#[test]
fn stack_traces_use_a_path_without_the_root() {
    let config = config();
    let env = env();
    let target = Target { triple: "aarch64-linux-android", abi: "arm64-v8a", arch: "arm64" };
    let device = Device::new("S1".into(), "Pixel".into(), "Pixel".into(), &target);
    let (logcat, stack) = device.stacktrace(&config, &env).unwrap();
    assert_eq!(plain(&logcat), ["-s", "S1", "logcat", "-d"]);
    assert_eq!(stack.program, "ndk-stack");
    assert_eq!(stack.env.last().unwrap(), &(String::from("PATH"), String::from("/ndk:/usr/bin")));
    assert_eq!(
        plain(&stack),
        ["-sym", "gen/android/MyApp/app/src/main/jniLibs/arm64-v8a"]
    );
}

#[test]
fn libraries_are_linked_under_their_own_names() {
    let config = config();
    let target = Target { triple: "aarch64-linux-android", abi: "arm64-v8a", arch: "arm64" };
    let dir = "/work/my app/gen/android/MyApp/app/src/main/jniLibs/arm64-v8a";
    assert_eq!(jnilibs::path(&config, target).to_string(), dir);
    let libs = JniLibs::create(&config, target);
    assert_eq!(libs.path.to_string(), dir);
    let disk = Disk { entries: vec![(path("/build/libapp.so"), Kind::File)] };
    let link = libs.symlink_lib(&path("/build/libapp.so"), &disk).unwrap();
    assert_eq!(link.source.to_string(), "/build/libapp.so");
    assert_eq!(link.target.to_string(), format!("{}/libapp.so", dir));
    assert_eq!(link.target_style, TargetStyle::File);
    match libs.symlink_lib(&path("/build/libgone.so"), &disk) {
        Err(e @ SymlinkLibError::SourceMissing(_)) => assert_eq!(
            e.report().details,
            "The symlink source is \"/build/libgone.so\", but nothing exists there"
        ),
        other => panic!("{:?}", other),
    }
    assert!(JniLibs::broken_link(&path("/gone"), &disk));
    assert!(!JniLibs::broken_link(&path("/build/libapp.so"), &disk));
}

#[test]
fn the_android_project_plan() {
    let config = config();
    let metadata = Metadata {
        app_sources: Some(vec![String::from("java/Main.java"), String::from("res")]),
        project_dependencies: Some(vec![]),
        ..Metadata::default()
    };
    let plan = project::gen(&config, &metadata).unwrap();
    assert!(plan.has_code);
    assert_eq!(plan.assets_dir.to_string(), "/work/my app/gen/android/MyApp/app/src/main/assets");
    let copies: Vec<(String, String)> =
        plan.copies.iter().map(|c| (c.src.to_string(), c.dest.to_string())).collect();
    assert_eq!(
        copies,
        [
            (
                String::from("/work/my app/java/Main.java"),
                String::from("/work/my app/gen/android/MyApp/app/Main.java")
            ),
            (
                String::from("/work/my app/res"),
                String::from("/work/my app/gen/android/MyApp/app/res")
            ),
        ]
    );
    let bad = Metadata { app_sources: Some(vec![String::from("a/..")]), ..Metadata::default() };
    match project::gen(&config, &bad) {
        Err(e @ project::Error::AssetSourceInvalid(_)) => {
            assert_eq!(e.report().msg, "Asset source at \"/work/my app/a/..\" invalid");
        }
        other => panic!("{:?}", other),
    }
    assert_eq!(project::root_dir_rel(&config, Host::Linux).to_string(), "../../..");
    assert!(!project::gen(&config, &Metadata::default()).unwrap().has_code);
}
