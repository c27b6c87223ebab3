use cargo_mobile::apple::cli::{
    arch_triple, ensure_init, host_env, insert_var, macos_from_platform, pod,
    profile_from_configuration, target_env, with_config, Command, Error as CliError, Input, Step,
};
use cargo_mobile::apple::config::{
    Config, Error, Metadata, Platform, ProjectDirInvalid, Raw, Team, VersionInfo,
};
use cargo_mobile::apple::config::raw::DetectError;
use cargo_mobile::apple::deps::update::{
    formula_from_captures, parse_gem_outdated_string, Formula, Outdated, OutdatedError, RegexError,
};
use cargo_mobile::apple::deps::{
    self, brew_reinstall, install, install_all, installed_with_brew, packages, update_package,
    GemCache, Installation, PackageSource, PackageSpec,
};
use cargo_mobile::apple::project;
use cargo_mobile::apple::version_number::VersionNumber;
use cargo_mobile::config::app::App;
use cargo_mobile::opts::{ForceColor, NoiseLevel, NonInteractive, Profile, ReinstallDeps, SkipDevTools};
use cargo_mobile::util::cli::{GlobalFlags, Label};
use cargo_mobile::util::command::{Arg, Command as Invocation};
use cargo_mobile::util::disk::{Disk, Kind};
use cargo_mobile::util::path::PathParts;
use cargo_mobile::util::pattern::Captures;
use cargo_mobile::util::rust_version::CaptureGroupError;
use cargo_mobile::util::version::VersionTriple;

fn path(text: &str) -> PathParts {
    PathParts::from_slashed(text)
}

fn app() -> App {
    App {
        root_dir: path("/work/app"),
        name: String::from("MyApp"),
        domain: String::from("com.example"),
        asset_dir: path("assets"),
    }
}

fn raw() -> Raw {
    Raw {
        development_team: String::from("TEAM123"),
        project_dir: None,
        bundle_version: None,
        bundle_version_short: None,
    }
}

fn config() -> Config {
    Config::from_raw(app(), Some(raw()), Ok(path("/unused"))).unwrap()
}

fn plain(command: &Invocation) -> Vec<String> {
    command
        .args
        .iter()
        .map(|arg| match arg {
            Arg::Plain(s) => s.clone(),
            Arg::Parsed(s) => format!("<{}>", s),
        })
        .collect()
}

#[test]
fn apple_config_has_defaults() {
    let config = config();
    assert_eq!(config.development_team, "TEAM123");
    assert_eq!(config.project_dir, "projects/apple");
    assert_eq!(config.bundle_version().to_string(), "1.0.0");
    assert_eq!(config.bundle_version_short, VersionTriple::new(1, 0, 0));
    assert_eq!(config.project_dir().to_string(), "/work/app/projects/apple");
    assert_eq!(config.scheme(), "MyApp_iOS");
    assert_eq!(config.export_dir().to_string(), "/work/app/projects/apple/build");
    assert_eq!(
        config.export_plist_path().to_string(),
        "/work/app/projects/apple/ExportOptions.plist"
    );
    assert_eq!(config.archive_dir("beta").to_string(), "/work/app/projects/apple/beta/build");
    assert_eq!(
        config.app_path().to_string(),
        "/work/app/projects/apple/build/Payload/MyApp.app"
    );
    assert_eq!(config.app().name(), "MyApp");
}

#[test]
fn apple_config_checks_come_in_order() {
    assert!(matches!(
        Config::from_raw(app(), None, Ok(path("/x"))),
        Err(Error::DevelopmentTeamMissing)
    ));
    let empty = Raw { development_team: String::new(), project_dir: Some("../x".into()), ..raw() };
    assert!(matches!(
        Config::from_raw(app(), Some(empty), Ok(path("/x"))),
        Err(Error::DevelopmentTeamEmpty)
    ));
    let outside = Raw {
        project_dir: Some("../x".into()),
        bundle_version: Some("bad".into()),
        ..raw()
    };
    assert_eq!(
        Config::project_dir_to_check(&app(), &Some(Raw { project_dir: Some("../x".into()), ..raw() }))
            .unwrap()
            .to_string(),
        "/work/app/../x"
    );
    match Config::from_raw(app(), Some(outside), Ok(path("/work/x"))) {
        Err(Error::ProjectDirInvalid(e @ ProjectDirInvalid::OutsideOfAppRoot { .. })) => assert_eq!(
            e.to_string(),
            "Xcode project dir \"../x\" is outside of the app root dir \"/work/app\""
        ),
        other => panic!("{:?}", other),
    }
    let versions = Raw {
        project_dir: Some("ios".into()),
        bundle_version: Some("2.1.0.5".into()),
        bundle_version_short: Some("2.1".into()),
        ..raw()
    };
    let config = Config::from_raw(app(), Some(versions), Ok(path("/work/app/ios"))).unwrap();
    assert_eq!(config.project_dir, "ios");
    assert_eq!(config.bundle_version().to_string(), "2.1.0.5");
    assert_eq!(config.bundle_version_short, VersionTriple::new(2, 1, 0));
    let only_long = Raw { bundle_version: Some("3.2.1".into()), ..raw() };
    let config = Config::from_raw(app(), Some(only_long), Ok(path("/x"))).unwrap();
    assert_eq!(config.bundle_version_short, VersionTriple::new(3, 2, 1));
}

#[test]
fn bundle_versions_must_fit_together() {
    let some = |s: &str| Some(s.to_string());
    let info = VersionInfo::from_raw(&None, &None).unwrap();
    assert!(info.version_number.is_none() && info.short_version_number.is_none());
    let info = VersionInfo::from_raw(&some("1.2.3.4"), &some("1.2.3")).unwrap();
    assert_eq!(info.version_number, Some(VersionNumber::from_str("1.2.3.4").unwrap()));
    assert_eq!(info.short_version_number, Some(VersionTriple::new(1, 2, 3)));
    assert!(matches!(
        VersionInfo::from_raw(&None, &some("1.2.3")),
        Err(Error::InvalidVersionConfiguration)
    ));
    assert!(matches!(
        VersionInfo::from_raw(&some("1.2.3"), &some("1.2.4")),
        Err(Error::IosVersionNumberMismatch)
    ));
    assert!(matches!(
        VersionInfo::from_raw(&some("x"), &some("y")),
        Err(Error::IosVersionNumberInvalid(_))
    ));
    assert!(matches!(
        VersionInfo::from_raw(&some("1.2.3"), &some("y")),
        Err(Error::BundleVersionInvalid(_))
    ));
    assert!(matches!(VersionInfo::from_raw(&None, &some("y")), Err(Error::BundleVersionInvalid(_))));
}

#[test]
fn apple_config_reports() {
    let report = Error::DevelopmentTeamMissing.report("Config invalid");
    assert_eq!(report.label, Label::Error);
    assert_eq!(report.msg, "Config invalid");
    assert_eq!(report.details, "`apple.development-team` must be specified");
    assert_eq!(
        Error::DevelopmentTeamEmpty.report("m").details,
        "`apple.development-team` is empty"
    );
    assert_eq!(
        Error::IosVersionNumberMismatch.report("m").details,
        "`apple.app-version` short and long version number don't match"
    );
    assert_eq!(
        Error::InvalidVersionConfiguration.report("m").details,
        "`apple.app-version` `bundle-version-short` cannot be specified without also specifying `bundle-version`"
    );
    assert_eq!(
        VersionInfo::from_raw(&Some("1.x".into()), &None).unwrap_err().report("m").details,
        "`apple.app-version` invalid: Failed to parse version triple."
    );
    assert_eq!(
        VersionInfo::from_raw(&Some("1".into()), &Some("1.x".into())).unwrap_err().report("m").details,
        "`apple.app-version` invalid: Failed to parse minor version from \"1.x\": invalid digit found in string"
    );
}

#[test]
fn workspaces_and_archives_depend_on_the_disk() {
    let config = config();
    let beside = "/work/app/projects/apple/MyApp.xcworkspace";
    assert_eq!(
        config.workspace_path(&Disk::new()).to_string(),
        "/work/app/projects/apple/MyApp.xcodeproj/project.xcworkspace"
    );
    let disk = Disk { entries: vec![(path(beside), Kind::Dir)] };
    assert_eq!(config.workspace_path(&disk).to_string(), beside);
    assert!(!config.project_dir_exists(&disk));
    let old = "/work/app/projects/apple/build/MyApp_iOS.ipa";
    let new = "/work/app/projects/apple/build/MyApp.ipa";
    let (a, b) = config.ipa_path(&Disk::new()).unwrap_err();
    assert_eq!((a.to_string(), b.to_string()), (old.to_string(), new.to_string()));
    let both = Disk { entries: vec![(path(new), Kind::File), (path(old), Kind::File)] };
    assert_eq!(config.ipa_path(&both).unwrap().to_string(), old);
    let only_new = Disk { entries: vec![(path(new), Kind::File), (path(old), Kind::Dir)] };
    assert_eq!(config.ipa_path(&only_new).unwrap().to_string(), new);
}

#[test]
fn platform_features_are_added_at_the_end() {
    let mut platform = Platform::default();
    assert!(!platform.no_default_features());
    assert!(platform.features().is_none());
    assert!(platform.libraries().is_empty());
    assert!(platform.frameworks().is_empty());
    platform.add_features(String::from("metal"));
    assert!(platform.no_default_features());
    assert_eq!(platform.features().unwrap(), ["metal"]);
    platform.add_features(String::from("audio"));
    assert_eq!(platform.features().unwrap(), ["metal", "audio"]);

    let mut metadata = Metadata::default();
    assert!(metadata.supported());
    metadata.macos.features = Some(vec![String::from("x")]);
    metadata.ios.libraries = Some(vec![String::from("z")]);
    metadata.add_features(String::from("y"));
    assert_eq!(metadata.ios().features().unwrap(), ["y"]);
    assert_eq!(metadata.macos().features().unwrap(), ["x", "y"]);
    assert_eq!(metadata.ios().libraries(), ["z"]);
    assert!(cargo_mobile::apple::config::default_true());
}

#[test]
fn teams_are_picked_by_number_or_identifier() {
    let teams = vec![
        Team { name: "A".into(), id: "AAA".into() },
        Team { name: "B".into(), id: "BBB".into() },
    ];
    assert_eq!(Raw::team_from_input("1".into(), &teams), Some("BBB".into()));
    assert_eq!(Raw::team_from_input("0".into(), &teams), Some("AAA".into()));
    assert_eq!(Raw::team_from_input("2".into(), &teams), Some("2".into()));
    assert_eq!(Raw::team_from_input("XYZ".into(), &teams), Some("XYZ".into()));
    assert_eq!(Raw::team_from_input("".into(), &teams), None);
    assert_eq!(Raw::default_team(&teams), None);
    assert_eq!(Raw::default_team(&teams[..1].iter().map(|t| Team { name: t.name.clone(), id: t.id.clone() }).collect()), Some("0"));
    assert_eq!(Raw::default_team(&vec![]), None);
    let none_id = vec![Team { name: "A".into(), id: "".into() }];
    assert_eq!(Raw::team_from_input("0".into(), &none_id), None);
    assert_eq!(Raw::detect(Ok(teams)).unwrap().development_team, "AAA");
    assert!(matches!(Raw::detect(Ok(vec![])), Err(DetectError::DeveloperTeamsEmpty)));
    assert_eq!(
        Raw::detect(Err("denied".into())).unwrap_err().to_string(),
        "Failed to find Apple developer teams: denied"
    );
    assert_eq!(
        DetectError::DeveloperTeamsEmpty.to_string(),
        "No Apple developer teams were detected."
    );
    assert_eq!(Raw::prompt("T".into()).development_team, "T");
}

#[test]
fn packages_and_installations() {
    let all = packages();
    assert_eq!(all.len(), 3);
    assert_eq!((all[0].pkg_name, all[0].bin_name), ("xcodegen", "xcodegen"));
    assert_eq!((all[1].pkg_name, all[1].bin_name), ("ios-deploy", "ios-deploy"));
    assert_eq!((all[2].pkg_name, all[2].bin_name), ("cocoapods", "pod"));
    assert_eq!(all[2].package_source, PackageSource::BrewOrGem);
    let brew = PackageSpec::brew("xcodegen");
    let gem = PackageSpec::brew_or_gem("cocoapods").with_bin_name("pod");
    assert_eq!(install(&brew, ReinstallDeps::No, true), None);
    assert_eq!(install(&brew, ReinstallDeps::No, false), Some(Installation::BrewReinstall));
    assert_eq!(install(&brew, ReinstallDeps::Yes, true), Some(Installation::BrewReinstall));
    assert_eq!(install(&gem, ReinstallDeps::No, false), Some(Installation::UpdatePackage));
    assert_eq!(gem.found(Ok(true)).unwrap(), true);
    assert_eq!(
        gem.found(Err("no shell".into())).unwrap_err().to_string(),
        "Failed to check for presence of `cocoapods`: no shell"
    );
    assert_eq!(plain(&installed_with_brew("x")), ["list", "x"]);
    assert_eq!(plain(&brew_reinstall("x")), ["reinstall", "x"]);
    assert_eq!(update_package("x", true, false).program, "brew");
    assert_eq!(plain(&update_package("x", false, true)), ["update", "x"]);
    let sudo = update_package("x", false, false);
    assert_eq!(sudo.program, "sudo");
    assert_eq!(plain(&sudo), ["gem", "install", "x"]);
    assert_eq!(GemCache::reinstall("x", true).program, "gem");
}

#[test]
fn aftercare_of_an_installation() {
    let none = Outdated { packages: vec![] };
    let some = Outdated {
        packages: vec![Formula {
            name: "xcodegen".into(),
            installed_versions: vec!["1".into()],
            current_version: "2".into(),
        }],
    };
    let care = install_all(&none, NonInteractive::No, SkipDevTools::No);
    assert!(!care.offer_updates && care.install_dev_tools);
    let care = install_all(&some, NonInteractive::No, SkipDevTools::Yes);
    assert!(care.offer_updates && !care.install_dev_tools);
    let care = install_all(&some, NonInteractive::Yes, SkipDevTools::No);
    assert!(!care.offer_updates && care.install_dev_tools);
}

#[test]
fn the_gem_cache_is_filled_once() {
    let mut cache = GemCache::new();
    assert!(cache.uninitialized());
    assert!(!cache.contains_unchecked("cocoapods"));
    let gems = "\n*** LOCAL GEMS ***\n\ncocoapods (1.10.1, 1.9.3)\nxcodeproj (1.19.0)\nnot a gem\n";
    assert_eq!(cache.contains("cocoapods", gems).unwrap(), true);
    assert!(!cache.uninitialized());
    assert!(cache.contains_unchecked("xcodeproj"));
    assert!(!cache.contains_unchecked("not a gem"));
    assert!(!cache.contains_unchecked("cocoapods (1.10.1, 1.9.3)"));
    // A cache that holds something is not filled again.
    assert_eq!(cache.contains("fastlane", "fastlane (2.0)\n").unwrap(), false);
    let mut other = GemCache::new();
    other.initialize("").unwrap();
    assert!(other.uninitialized());
}

#[test]
fn outdated_gems_look_for_a_group_that_is_not_there() {
    match parse_gem_outdated_string("cocoapods (1.10.0 < 1.11.2)") {
        Err(RegexError::InvalidCaptureGroup(CaptureGroupError::InvalidCaptureGroup { group, string })) => {
            assert_eq!(group, "current_version");
            assert_eq!(string, "cocoapods (1.10.0 < 1.11.2)");
        }
        other => panic!("{:?}", other),
    }
    match parse_gem_outdated_string("nothing here") {
        Err(e @ RegexError::SearchFailed { .. }) => {
            assert_eq!(e.to_string(), "Failed to match regex in string \"nothing here\"")
        }
        other => panic!("{:?}", other),
    }
    let caps = Captures {
        names: vec![
            None,
            Some("name".into()),
            Some("installed_version".into()),
            Some("current_version".into()),
        ],
        groups: vec![Some("w".into()), Some("pod".into()), Some("1".into()), Some("2".into())],
    };
    let formula = formula_from_captures(&caps, "w").unwrap();
    assert_eq!(formula.name, "pod");
    assert_eq!(formula.installed_versions, ["1"]);
    assert_eq!(formula.current_version, "2");
}

#[test]
fn outdated_lists_keep_known_formulae() {
    let formula = |name: &str, installed: &[&str]| Formula {
        name: name.into(),
        installed_versions: installed.iter().map(|s| s.to_string()).collect(),
        current_version: "9".into(),
    };
    let formulae = vec![
        formula("wget", &["1"]),
        formula("ios-deploy", &["1.0"]),
        formula("cocoapods", &["1", "2"]),
        formula("git", &["2"]),
        formula("xcodegen", &[]),
    ];
    let cache = GemCache::new();
    let outdated = Outdated::load(formulae, "fastlane (1 < 2)\n\n", &cache).unwrap();
    assert!(!outdated.is_empty());
    assert_eq!(outdated.iter(), ["ios-deploy", "cocoapods", "xcodegen"]);
    assert_eq!(
        outdated.print_notice(),
        [
            "Outdated dependencies:",
            "  - `ios-deploy` is at 1.0; latest version is 9",
            "  - `cocoapods` is at [1, 2]; latest version is 9",
            "  - `xcodegen` is at []; latest version is 9",
        ]
    );
    let empty = Outdated::load(vec![], "", &cache).unwrap();
    assert!(empty.is_empty());
    assert_eq!(empty.print_notice(), ["Apple dependencies are up to date"]);

    // A line that the cache holds as the name of a gem is read, and fails.
    let mut cache = GemCache::new();
    cache.set.insert(String::from("cocoapods (1 < 2)"));
    assert!(matches!(
        Outdated::load(vec![], "cocoapods (1 < 2)\n", &cache),
        Err(OutdatedError::RegexError(RegexError::InvalidCaptureGroup(_)))
    ));
    assert_eq!(
        OutdatedError::CommandFailed("x".into()).to_string(),
        "Failed to check for outdated packages: x"
    );
    assert_eq!(deps::Error::RegexMatchFailed.to_string(), "Regex match failed for output of `gem list`");
}

#[test]
fn xcode_arguments() {
    assert!(macos_from_platform("macOS"));
    assert!(!macos_from_platform("iOS"));
    assert!(!macos_from_platform("macos"));
    assert_eq!(profile_from_configuration("release"), Profile::Release);
    assert_eq!(profile_from_configuration("debug"), Profile::Debug);
    assert_eq!(profile_from_configuration("Release"), Profile::Debug);
    assert_eq!(arch_triple("arm64").unwrap(), "aarch64_apple_ios");
    assert_eq!(arch_triple("x86_64").unwrap(), "x86_64_apple_ios");
    match arch_triple("armv7") {
        Err(e @ CliError::ArchInvalid { .. }) => {
            assert_eq!(e.report().details, "\"armv7\" isn't a known arch")
        }
        other => panic!("{:?}", other),
    }
    let flags = GlobalFlags { noise_level: NoiseLevel::Polite, non_interactive: NonInteractive::No };
    let input = Input::new(flags, Command::List);
    assert_eq!(input.global_flags(), flags);
    assert_eq!(ForceColor::from_bool(true), ForceColor::Yes);
}

#[test]
fn xcode_script_variables() {
    let sdk = path("/X/Platforms/iPhoneOS.platform/Developer/SDKs/iPhoneOS.sdk");
    let headers = "/X/Platforms/iPhoneOS.platform/Developer/SDKs/iPhoneOS.sdk/usr/include";
    let mac = "/X/Platforms/iPhoneOS.platform/Developer/SDKs/iPhoneOS.sdk/../../../../MacOSX.platform/Developer/SDKs/MacOSX.sdk";
    match host_env(&sdk, "f", "g", "h", &Disk::new()) {
        Err(e @ CliError::SdkRootInvalid { .. }) => {
            assert_eq!(e.report().msg, "SDK root provided by Xcode was invalid")
        }
        other => panic!("{:?}", other),
    }
    let mut disk = Disk { entries: vec![(sdk.copy(), Kind::Dir)] };
    assert!(matches!(host_env(&sdk, "f", "g", "h", &disk), Err(CliError::IncludeDirInvalid { .. })));
    disk.entries.push((path(headers), Kind::Dir));
    match host_env(&sdk, "f", "g", "h", &disk) {
        Err(e @ CliError::MacosSdkRootInvalid { .. }) => assert_eq!(
            e.report().details,
            format!("{:?} doesn't exist or isn't a directory", mac)
        ),
        other => panic!("{:?}", other),
    }
    disk.entries.push((path(mac), Kind::Dir));
    let host = host_env(&sdk, "f", "g", "h", &disk).unwrap();
    let isysroot = format!("-isysroot {}", mac);
    let expected: Vec<(String, String)> = vec![
        ("MAC_FLAGS".into(), isysroot.clone()),
        ("CFLAGS_x86_64_apple_darwin".into(), isysroot.clone()),
        ("CXXFLAGS_x86_64_apple_darwin".into(), isysroot.clone()),
        ("OBJC_INCLUDE_PATH_x86_64_apple_darwin".into(), headers.into()),
        ("RUST_BACKTRACE".into(), "1".into()),
        ("FRAMEWORK_SEARCH_PATHS".into(), "f".into()),
        ("GCC_PREPROCESSOR_DEFINITIONS".into(), "g".into()),
        ("HEADER_SEARCH_PATHS".into(), "h".into()),
    ];
    assert_eq!(host, expected);
    let target = target_env(&host, &sdk, "arm64").unwrap();
    assert_eq!(target.len(), 11);
    assert_eq!(&target[..8], &expected[..]);
    assert_eq!(
        target[8],
        ("CFLAGS_aarch64_apple_ios".to_string(), format!("-isysroot {}", sdk.to_string()))
    );
    assert_eq!(target[9], ("OBJC_INCLUDE_PATH_aarch64_apple_ios".to_string(), headers.to_string()));
    assert_eq!(target[10], ("LIBRARY_PATH".to_string(), format!("{}/usr/lib", mac)));
    assert!(target_env(&host, &sdk, "mips").is_err());
    let mut vars = vec![("A".to_string(), "1".to_string()), ("B".to_string(), "2".to_string())];
    insert_var(&mut vars, "A", "3");
    insert_var(&mut vars, "C", "4");
    assert_eq!(
        vars,
        [
            ("A".to_string(), "3".to_string()),
            ("B".to_string(), "2".to_string()),
            ("C".to_string(), "4".to_string())
        ]
    );
}

#[test]
fn apple_commands_and_checks() {
    let config = config();
    assert!(with_config(true).is_ok());
    assert!(matches!(with_config(false), Err(CliError::Unsupported)));
    match ensure_init(&config, &Disk::new()) {
        Err(e @ CliError::ProjectDirAbsent { .. }) => {
            let report = e.report();
            assert_eq!(report.label, Label::ActionRequest);
            assert_eq!(report.msg, "Please run `cargo mobile init` and try again!");
            assert_eq!(
                report.details,
                "Xcode project directory \"/work/app/projects/apple\" doesn't exist."
            );
        }
        other => panic!("{:?}", other),
    }
    let disk = Disk { entries: vec![(path("/work/app/projects/apple"), Kind::Dir)] };
    assert!(ensure_init(&config, &disk).is_ok());
    let pod = pod(&config, &vec!["repo".to_string(), "update".to_string()]);
    assert_eq!(pod.program, "pod");
    assert_eq!(plain(&pod), ["repo", "update", "--project-directory=/work/app/projects/apple"]);
    assert_eq!(
        CliError::Unsupported.report().msg,
        "iOS is marked as unsupported in your Cargo.toml metadata"
    );
    assert_eq!(CliError::PodCommandFailed("x".into()).report().msg, "pod command failed");
}

#[test]
fn the_xcode_project_plan() {
    let config = config();
    let dirs = project::source_dirs(&path("../.."), Some(&path("rust-lib")));
    let dirs: Vec<String> = dirs.iter().map(|d| d.to_string()).collect();
    assert_eq!(dirs, ["../../src", "../../rust-lib"]);
    assert_eq!(project::source_dirs(&path("../.."), None).len(), 1);
    assert_eq!(project::valid_archs(None), ["arm64", "x86_64"]);
    assert_eq!(project::valid_archs(Some(&vec!["arm64".to_string()])), ["arm64"]);
    let commands = project::gen(&config, 0, 0);
    assert_eq!(commands.len(), 1);
    assert_eq!(commands[0].program, "xcodegen");
    assert_eq!(
        plain(&commands[0]),
        ["generate", "--spec", "/work/app/projects/apple/project.yml"]
    );
    let commands = project::gen(&config, 0, 2);
    assert_eq!(commands.len(), 2);
    assert_eq!(
        plain(&commands[1]),
        ["install", "--project-directory=/work/app/projects/apple"]
    );
    assert_eq!(project::gen(&config, 1, 0).len(), 2);
    assert_eq!(
        project::Error::XcodegenFailed("x".into()).report().msg,
        "Failed to run `xcodegen`"
    );
}

fn script(arches: &[&str], sdk_root: &str) -> cargo_mobile::apple::cli::Input {
    Input::new(
        cargo_mobile::util::cli::GlobalFlags {
            noise_level: cargo_mobile::opts::NoiseLevel::Polite,
            non_interactive: cargo_mobile::opts::NonInteractive::No,
        },
        Command::XcodeScript {
            macos: false,
            sdk_root: PathParts::from_slashed(sdk_root),
            framework_search_paths: String::from("fw"),
            gcc_preprocessor_definitions: String::from("defs"),
            header_search_paths: String::from("hdr"),
            profile: Profile::Release,
            force_color: cargo_mobile::opts::ForceColor::No,
            arches: arches.iter().map(|arch| arch.to_string()).collect(),
            features: Some(String::from("metal")),
        },
    )
}

fn base_env() -> cargo_mobile::env::Env {
    cargo_mobile::env::Env {
        home: String::from("/Users/me"),
        path: String::from("/usr/bin"),
        term: None,
        ssh_auth_sock: None,
        windows: None,
    }
}

fn sdk_disk(present: &[&str]) -> Disk {
    Disk {
        entries: present.iter().map(|p| (PathParts::from_slashed(p), Kind::Dir)).collect(),
    }
}

const SDK: &str = "/X/Platforms/iPhoneOS.platform/Developer/SDKs/iPhoneOS.sdk";
const SDK_HEADERS: &str = "/X/Platforms/iPhoneOS.platform/Developer/SDKs/iPhoneOS.sdk/usr/include";
const MAC_SDK: &str = "/X/Platforms/iPhoneOS.platform/Developer/SDKs/iPhoneOS.sdk/../../../../MacOSX.platform/Developer/SDKs/MacOSX.sdk";

#[test]
fn a_command_is_planned_step_by_step() {
    let flags = cargo_mobile::util::cli::GlobalFlags {
        noise_level: cargo_mobile::opts::NoiseLevel::Polite,
        non_interactive: cargo_mobile::opts::NonInteractive::Yes,
    };
    let nothing = Disk { entries: Vec::new() };

    let plan = Input::new(flags, Command::Open).exec(Ok(base_env()), None, &nothing).unwrap();
    assert!(matches!(
        plan.steps.as_slice(),
        [Step::VersionCheck, Step::LoadConfig { features: None }, Step::EnsureInit, Step::OpenInXcode]
    ));
    assert!(plan.failure.is_none());
    assert_eq!(plan.env.path, "/usr/bin");

    let check = Command::Check { targets: vec![String::from("x86_64")], features: None };
    let plan = Input::new(flags, check).exec(Ok(base_env()), None, &nothing).unwrap();
    assert!(matches!(
        plan.steps.as_slice(),
        [Step::VersionCheck, Step::LoadConfig { features: None }, Step::Check { targets }]
            if targets == &["x86_64"]
    ));

    let build = Command::Build {
        targets: Vec::new(),
        features: Some(String::from("metal")),
        profile: Profile::Release,
    };
    let plan = Input::new(flags, build).exec(Ok(base_env()), None, &nothing).unwrap();
    assert!(matches!(
        plan.steps.as_slice(),
        [
            Step::LoadConfig { features: Some(loaded) },
            Step::VersionCheck,
            Step::EnsureInit,
            Step::Build { targets, profile: Profile::Release, features: Some(built) },
        ] if loaded == "metal" && built == "metal" && targets.is_empty()
    ));

    let archive = Command::Archive {
        build_number: Some(7),
        targets: Vec::new(),
        features: None,
        profile: Profile::Debug,
        suffix: Some(String::from("-beta")),
    };
    let plan = Input::new(flags, archive).exec(Ok(base_env()), None, &nothing).unwrap();
    assert!(matches!(
        plan.steps.as_slice(),
        [
            Step::LoadConfig { features: None },
            Step::VersionCheck,
            Step::EnsureInit,
            Step::Archive { build_number: Some(7), suffix: Some(suffix), profile: Profile::Debug, .. },
        ] if suffix == "-beta"
    ));

    let run = Command::Run { features: None, profile: Profile::Debug };
    let plan = Input::new(flags, run).exec(Ok(base_env()), None, &nothing).unwrap();
    assert!(matches!(
        plan.steps.as_slice(),
        [Step::LoadConfig { .. }, Step::VersionCheck, Step::EnsureInit, Step::Run { .. }]
    ));

    let plan = Input::new(flags, Command::List).exec(Ok(base_env()), None, &nothing).unwrap();
    assert!(matches!(plan.steps.as_slice(), [Step::ListDevices]));

    let pod = Command::Pod { arguments: vec![String::from("install")] };
    let plan = Input::new(flags, pod).exec(Ok(base_env()), None, &nothing).unwrap();
    assert!(matches!(
        plan.steps.as_slice(),
        [Step::LoadConfig { features: None }, Step::Pod { arguments }] if arguments == &["install"]
    ));

    let unset = cargo_mobile::env::Error::PathNotSet(cargo_mobile::env::VarError::NotPresent);
    assert!(matches!(
        Input::new(flags, Command::Open).exec(Err(unset), None, &nothing),
        Err(CliError::EnvInitFailed(cargo_mobile::env::Error::PathNotSet(_)))
    ));
}

#[test]
fn the_build_script_of_xcode_is_planned_by_architecture() {
    let home = PathParts::from_slashed("/Users/me");
    let disk = sdk_disk(&[SDK, SDK_HEADERS, MAC_SDK]);

    let plan = script(&["arm64", "x86_64"], SDK).exec(Ok(base_env()), Some(&home), &disk).unwrap();
    assert!(plan.failure.is_none());
    assert_eq!(plan.env.path, "/Users/me/.cargo/bin:/usr/bin");
    assert_eq!(plan.env.home, "/Users/me");
    assert_eq!(plan.steps.len(), 3);
    assert!(matches!(&plan.steps[0], Step::LoadConfig { features: Some(f) } if f == "metal"));
    match &plan.steps[1] {
        Step::CompileLib { arch, macos, profile, target_env, .. } => {
            assert_eq!(arch, "arm64");
            assert!(!macos);
            assert_eq!(*profile, Profile::Release);
            let value = |key: &str| {
                target_env.iter().find(|(k, _)| k == key).map(|(_, v)| v.clone())
            };
            assert_eq!(value("CFLAGS_aarch64_apple_ios"), Some(format!("-isysroot {}", SDK)));
            assert_eq!(value("MAC_FLAGS"), Some(format!("-isysroot {}", MAC_SDK)));
            assert_eq!(value("LIBRARY_PATH"), Some(format!("{}/usr/lib", MAC_SDK)));
            assert_eq!(value("OBJC_INCLUDE_PATH_aarch64_apple_ios"), Some(SDK_HEADERS.to_string()));
            assert_eq!(value("HEADER_SEARCH_PATHS"), Some(String::from("hdr")));
            assert_eq!(target_env.len(), 11);
        }
        other => panic!("{:?}", other),
    }
    assert!(matches!(&plan.steps[2], Step::CompileLib { arch, .. } if arch == "x86_64"));

    // What comes before an unknown architecture is still built.
    let plan = script(&["arm64", "mips", "x86_64"], SDK)
        .exec(Ok(base_env()), Some(&home), &disk)
        .unwrap();
    assert_eq!(plan.steps.len(), 2);
    assert!(matches!(&plan.failure, Some(CliError::ArchInvalid { arch }) if arch == "mips"));

    // Without a home directory nothing but the configuration is loaded.
    let plan = script(&["arm64"], SDK).exec(Ok(base_env()), None, &disk).unwrap();
    assert_eq!(plan.steps.len(), 1);
    assert!(matches!(plan.failure, Some(CliError::NoHomeDir(_))));
    assert_eq!(plan.env.path, "/usr/bin");

    // The SDK, its headers and the SDK of macOS are looked at in this order.
    let plan = script(&["arm64"], SDK).exec(Ok(base_env()), Some(&home), &sdk_disk(&[])).unwrap();
    assert_eq!(plan.steps.len(), 1);
    assert!(matches!(&plan.failure, Some(CliError::SdkRootInvalid { sdk_root })
        if sdk_root.to_string() == SDK));
    let plan = script(&["arm64"], SDK).exec(Ok(base_env()), Some(&home), &sdk_disk(&[SDK])).unwrap();
    assert!(matches!(&plan.failure, Some(CliError::IncludeDirInvalid { include_dir })
        if include_dir.to_string() == SDK_HEADERS));
    let plan = script(&["arm64"], SDK)
        .exec(Ok(base_env()), Some(&home), &sdk_disk(&[SDK, SDK_HEADERS]))
        .unwrap();
    assert!(matches!(&plan.failure, Some(CliError::MacosSdkRootInvalid { macos_sdk_root })
        if macos_sdk_root.to_string() == MAC_SDK));
}

#[test]
fn setting_a_variable_twice_keeps_one_entry() {
    let mut vars: Vec<(String, String)> = Vec::new();
    insert_var(&mut vars, "LIBRARY_PATH", "/a");
    insert_var(&mut vars, "RUST_BACKTRACE", "1");
    insert_var(&mut vars, "LIBRARY_PATH", "/b");
    assert_eq!(vars.len(), 2);
    assert_eq!(vars[0], ("LIBRARY_PATH".to_string(), "/b".to_string()));
    assert_eq!(vars[1], ("RUST_BACKTRACE".to_string(), "1".to_string()));
    let names: Vec<&str> = vars.iter().map(|(name, _)| name.as_str()).collect();
    assert!((1..names.len()).all(|i| !names[..i].contains(&names[i])));
}
