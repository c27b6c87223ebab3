use cargo_mobile::android;
use cargo_mobile::apple;
use cargo_mobile::config::app::App;
use cargo_mobile::config::raw::{DetectError, LoadError, PromptError, Raw, WriteError};
use cargo_mobile::config::{file_name, Config, FromRawError, GenError, LoadOrGenError, Origin, Source};
use cargo_mobile::dot_cargo::{DotCargo, DotCargoBuild, DotCargoTarget, LoadError as CargoLoadError};
use cargo_mobile::env::{Env, Error, ExplicitEnv, VarError, VarValue, Vars};
use cargo_mobile::opts::NonInteractive;
use cargo_mobile::os::Host;
use cargo_mobile::util::disk::{Disk, Kind};
use cargo_mobile::util::git::lfs;
use cargo_mobile::util::path::PathParts;

fn path(text: &str) -> PathParts {
    PathParts::from_slashed(text)
}

fn app() -> App {
    App {
        root_dir: path("/work/app"),
        name: String::from("MyApp"),
        domain: String::from("com.example"),
        asset_dir: path("res/assets"),
    }
}

fn vars(entries: &[(&str, &str)]) -> Vars {
    Vars {
        entries: entries
            .iter()
            .map(|(k, v)| (k.to_string(), VarValue::Text(v.to_string())))
            .collect(),
    }
}

#[test]
fn the_app_knows_its_paths_and_names() {
    let app = app();
    assert_eq!(app.root_dir().to_string(), "/work/app");
    assert_eq!(app.name_snake(), "my_app");
    assert_eq!(app.reverse_domain(), "example.com");
    assert_eq!(app.prefix_path(&path("gen")).to_string(), "/work/app/gen");
    assert_eq!(app.unprefix_path(&path("/work/app/gen/x")).unwrap().to_string(), "gen/x");
    assert!(app.unprefix_path(&path("/other")).is_err());
    assert_eq!(app.asset_dir().to_string(), "/work/app/res/assets");
    assert_eq!(app.copy().name, "MyApp");
}

#[test]
fn the_configuration_file_is_found_upwards() {
    assert_eq!(file_name(), "mobile.toml");
    let disk = Disk {
        entries: vec![
            (path("/work/mobile.toml"), Kind::File),
            (path("/mobile.toml"), Kind::File),
        ],
    };
    assert_eq!(Raw::discover_root(&path("/work/app/src"), &disk).unwrap().to_string(), "/work");
    assert_eq!(Raw::discover_root(&path("/work"), &disk).unwrap().to_string(), "/work");
    assert_eq!(Raw::discover_root(&path("/other/dir"), &disk).unwrap().to_string(), "/");
    assert!(Raw::discover_root(&path("/work/app"), &Disk::new()).is_none());
    assert!(Raw::discover_root(&path(""), &Disk::new()).is_none());
    assert_eq!(Raw::path(&path("/work")).to_string(), "/work/mobile.toml");
}

#[test]
fn the_whole_configuration_is_put_together() {
    let apple_raw = apple::config::Raw {
        development_team: "T".into(),
        project_dir: None,
        bundle_version: None,
        bundle_version_short: None,
    };
    let config = Config::from_raw(app(), Some(apple_raw), None, Ok(path("/x")), Ok(path("/x"))).unwrap();
    assert_eq!(config.path().to_string(), "/work/app/mobile.toml");
    assert_eq!(config.app().name(), "MyApp");
    assert_eq!(config.apple().scheme(), "MyApp_iOS");
    assert_eq!(config.android().min_sdk_version(), 24);
    match Config::from_raw(app(), None, None, Ok(path("/x")), Ok(path("/x"))) {
        Err(e @ FromRawError::AppleConfigInvalid(_)) => {
            let report = e.report("Failed to generate config");
            assert_eq!(report.msg, "Failed to generate config");
            assert_eq!(report.details, "`apple.development-team` must be specified");
        }
        other => panic!("{:?}", other),
    }
    let apple_raw = apple::config::Raw {
        development_team: "T".into(),
        project_dir: None,
        bundle_version: None,
        bundle_version_short: None,
    };
    let android_raw = android::config::Raw {
        project_dir: Some("a b".into()),
        ..android::config::Raw::default()
    };
    assert!(matches!(
        Config::from_raw(app(), Some(apple_raw), Some(android_raw), Ok(path("/x")), Ok(path("/work/app/a b"))),
        Err(FromRawError::AndroidConfigInvalid(_))
    ));
}

#[test]
fn origins_and_sources() {
    assert!(Origin::FreshlyMinted.freshly_minted());
    assert!(!Origin::Loaded.freshly_minted());
    assert_eq!(Config::load_or_gen(true), Origin::Loaded);
    assert_eq!(Config::load_or_gen(false), Origin::FreshlyMinted);
    assert_eq!(Config::gen(NonInteractive::No), Source::Prompt);
    assert_eq!(Config::gen(NonInteractive::Yes), Source::Detect);
}

#[test]
fn configuration_reports() {
    assert_eq!(
        PromptError::AppFailed("no input".into()).report().msg,
        "Failed to prompt for `app` config"
    );
    assert_eq!(
        DetectError::AppleFailed(apple::config::DetectError::DeveloperTeamsEmpty).report().msg,
        "Failed to detect `apple` config"
    );
    assert_eq!(
        LoadError::ReadFailed { path: path("/w/mobile.toml"), cause: "denied".into() }.to_string(),
        "Failed to read config file at \"/w/mobile.toml\": denied"
    );
    assert_eq!(WriteError::WriteFailed("full".into()).report().msg, "Failed to write config");
    let report = GenError::CanonicalizeFailed("gone".into()).report();
    assert_eq!(report.msg, "Failed to generate config");
    assert_eq!(report.details, "Failed to canonicalize root dir: gone");
    let report = LoadOrGenError::FromRawFailed {
        path: path("/w"),
        cause: FromRawError::AppConfigInvalid("bad name".into()),
    }
    .report();
    assert_eq!(report.msg, "Config file at \"/w\" invalid");
    assert_eq!(report.details, "bad name");
    assert_eq!(
        LoadOrGenError::LoadFailed(LoadError::DiscoverFailed("x".into())).report().details,
        "Failed to canonicalize path while searching for config file: x"
    );
}

#[test]
fn variables_are_looked_up_by_their_first_entry() {
    let mut vars = vars(&[("A", "1"), ("A", "2")]);
    vars.entries.push((String::from("B"), VarValue::NotUnicode(String::from("\u{fffd}"))));
    assert_eq!(vars.var("A").unwrap(), "1");
    assert!(matches!(vars.var("B"), Err(VarError::NotUnicode(_))));
    assert!(matches!(vars.var("C"), Err(VarError::NotPresent)));
    assert_eq!(vars.var_ok("A"), Some(String::from("1")));
    assert_eq!(vars.var_ok("B"), None);
    assert_eq!(VarError::NotPresent.to_string(), "environment variable not found");
    assert_eq!(
        VarError::NotUnicode("x".into()).to_string(),
        "environment variable was not valid unicode: \"x\""
    );
}

#[test]
fn the_base_environment_needs_home_and_path() {
    let env = Env::new(&vars(&[("HOME", "/home/me"), ("PATH", "/bin"), ("TERM", "xterm")]), Host::Linux)
        .unwrap();
    assert_eq!(env.path(), "/bin");
    assert_eq!(env.home, "/home/me");
    assert_eq!(env.term, Some("xterm".into()));
    assert_eq!(env.ssh_auth_sock, None);
    assert!(env.windows.is_none());
    assert_eq!(
        env.explicit_env(),
        [
            ("HOME".to_string(), "/home/me".to_string()),
            ("PATH".to_string(), "/bin".to_string()),
            ("TERM".to_string(), "xterm".to_string()),
        ]
    );
    let env = env.prepend_to_path("/home/me/.cargo/bin");
    assert_eq!(env.path(), "/home/me/.cargo/bin:/bin");
    match Env::new(&vars(&[("PATH", "/bin")]), Host::Linux) {
        Err(e @ Error::HomeNotSet(_)) => {
            assert_eq!(
                e.to_string(),
                "The `HOME` environment variable isn't set, which is pretty weird: environment variable not found"
            );
            assert_eq!(e.report().msg, "Failed to initialize base environment");
        }
        other => panic!("{:?}", other),
    }
    assert!(matches!(
        Env::new(&vars(&[("HOME", "/h")]), Host::MacOs),
        Err(Error::PathNotSet(_))
    ));
}

#[test]
fn windows_needs_three_more_variables() {
    let all = vars(&[
        ("USERPROFILE", "C:/Users/me"),
        ("PATH", "C:/bin"),
        ("SYSTEMROOT", "C:/Windows"),
        ("OS", "Windows_NT"),
        ("JAVA_HOME", "C:/java"),
        ("SSH_AUTH_SOCK", "sock"),
    ]);
    let env = Env::new(&all, Host::Windows64).unwrap();
    assert_eq!(env.home, "C:/Users/me");
    let names: Vec<String> = env.explicit_env().into_iter().map(|(k, _)| k).collect();
    assert_eq!(names, ["USERPROFILE", "PATH", "SYSTEMROOT", "OS", "JAVA_HOME", "SSH_AUTH_SOCK"]);
    assert!(matches!(
        Env::new(&vars(&[("HOME", "/h"), ("PATH", "/bin")]), Host::Windows64),
        Err(Error::HomeNotSet(_))
    ));
    assert!(matches!(
        Env::new(&vars(&[("USERPROFILE", "u"), ("PATH", "p")]), Host::Windows32),
        Err(Error::SystemRootNotSet(_))
    ));
    assert!(matches!(
        Env::new(&vars(&[("USERPROFILE", "u"), ("PATH", "p"), ("SYSTEMROOT", "s")]), Host::Windows32),
        Err(Error::OsNotSet(_))
    ));
    assert!(matches!(
        Env::new(
            &vars(&[("USERPROFILE", "u"), ("PATH", "p"), ("SYSTEMROOT", "s"), ("OS", "o")]),
            Host::Windows32
        ),
        Err(Error::JavaHomeNotSet(_))
    ));
}

#[test]
fn cargo_configuration_plans_its_loading() {
    let app = app();
    let (dir, file) = DotCargo::create_dir_and_get_path(&app);
    assert_eq!(dir.to_string(), "/work/app/.cargo");
    assert_eq!(file.to_string(), "/work/app/.cargo/config.toml");
    let plan = DotCargo::load(&app, &Disk::new());
    assert!(plan.migrate_from.is_none());
    assert!(!plan.read);
    let old = Disk { entries: vec![(path("/work/app/.cargo/config"), Kind::File)] };
    let plan = DotCargo::load(&app, &old);
    assert_eq!(plan.migrate_from.unwrap().to_string(), "/work/app/.cargo/config");
    assert!(plan.read);
    let new = Disk { entries: vec![(path("/work/app/.cargo/config.toml"), Kind::File)] };
    let plan = DotCargo::load(&app, &new);
    assert!(plan.migrate_from.is_none());
    assert!(plan.read);
    assert_eq!(
        CargoLoadError::MigrateFailed { from: path("/a"), to: path("/b"), cause: "x".into() }
            .report()
            .msg,
        "Failed to rename cargo config from old style \"/a\" to new style \"/b\""
    );
}

#[test]
fn cargo_targets_are_set_by_name() {
    let target = |linker: &str| DotCargoTarget {
        ar: None,
        linker: Some(linker.to_string()),
        rustflags: vec![],
    };
    assert!(DotCargoTarget::default().is_empty());
    assert!(!target("ld").is_empty());
    assert!(!DotCargoTarget { ar: None, linker: None, rustflags: vec!["-C".into()] }.is_empty());
    assert!(!DotCargoTarget { ar: Some("ar".into()), linker: None, rustflags: vec![] }.is_empty());
    assert_eq!(DotCargoBuild::new("t".into()).target, "t");
    let mut config = DotCargo::new();
    config.set_default_target("aarch64-linux-android".into());
    assert_eq!(config.build.as_ref().unwrap().target, "aarch64-linux-android");
    config.insert_target("a".into(), target("one"));
    config.insert_target("b".into(), target("two"));
    config.insert_target("c".into(), DotCargoTarget::default());
    config.insert_target("a".into(), target("three"));
    config.insert_target("b".into(), DotCargoTarget::default());
    let seen: Vec<(String, String)> =
        config.target.iter().map(|(n, t)| (n.clone(), t.linker.clone().unwrap())).collect();
    assert_eq!(
        seen,
        [("a".to_string(), "three".to_string()), ("b".to_string(), "two".to_string())]
    );
}

#[test]
fn git_lfs_must_be_there() {
    assert!(lfs::ensure_present(Host::MacOs, Err("x".into())).is_ok());
    let command = lfs::ensure_present(Host::Linux, Ok(true)).unwrap();
    assert_eq!(command.program, "git");
    assert_eq!(command.args.len(), 2);
    assert!(matches!(lfs::ensure_present(Host::Linux, Ok(false)), Err(lfs::Error::InstallNeeded)));
    match lfs::ensure_present(Host::Windows64, Err("no shell".into())) {
        Err(e @ lfs::Error::CheckFailed(_)) => {
            assert_eq!(e.to_string(), "Failed to check if `git-lfs` is present: no shell")
        }
        other => panic!("{:?}", other),
    }
    assert_eq!(
        lfs::Error::InstallNeeded.to_string(),
        "Git LFS isn't installed; please install it and try again"
    );
}
