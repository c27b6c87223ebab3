use cargo_mobile::doctor::report::{
    check_android, check_apple, check_cargo_mobile, check_device_list, check_os, check_rust,
    command, exec, fail_bullet, find_revision, has_error, has_warning, plugin_meta_path,
    plugin_spec_path, report_bullet, success_bullet, validate_xcode_plugin,
    validate_xcode_select, warn_bullet, AndroidTools, AppleTools, DoctorError, DoctorStatus,
    ReportBullet, NDK_REVISION_PATTERN, SDK_REVISION_PATTERN,
};
use cargo_mobile::doctor::section::{android, cargo_mobile as tool, device_list, Item, Section};
use cargo_mobile::doctor::{Doctor, Unrecoverable};
use cargo_mobile::env::{Error as EnvError, VarError};
use cargo_mobile::os::Host;
use cargo_mobile::util::path::PathParts;
use cargo_mobile::util::rust_version::{RunAndSearchError, RustVersion};
use cargo_mobile::util::version::VersionTriple;

fn path(text: &str) -> PathParts {
    PathParts::from_slashed(text)
}

fn victory(item: &Item) -> &str {
    match item {
        Item::Victory(s) => s,
        Item::Failure(s) => panic!("failure: {}", s),
    }
}

fn failure(item: &Item) -> &str {
    match item {
        Item::Failure(s) => s,
        Item::Victory(s) => panic!("victory: {}", s),
    }
}

fn text(bullet: &ReportBullet) -> String {
    match bullet {
        ReportBullet::Success { bullet } => format!("ok: {}", bullet),
        ReportBullet::Warning { bullet } => format!("warn: {}", bullet),
        ReportBullet::Failure { error } => format!("fail: {}", error.to_string()),
    }
}

#[test]
fn status_and_symbols() {
    assert_eq!(DoctorStatus::new(false, false), DoctorStatus::Success);
    assert_eq!(DoctorStatus::new(false, true), DoctorStatus::Warning);
    assert_eq!(DoctorStatus::new(true, false), DoctorStatus::Failure);
    assert_eq!(DoctorStatus::new(true, true), DoctorStatus::Failure);
    assert_eq!(DoctorStatus::Success.get_report_symbol(), "[âœ”] ");
    assert_eq!(DoctorStatus::Warning.get_report_symbol(), "[!] ");
    assert_eq!(DoctorStatus::Failure.get_report_symbol(), "[X] ");
}

#[test]
fn bullets() {
    assert!(matches!(success_bullet("a".into()), ReportBullet::Success { .. }));
    assert!(matches!(warn_bullet("a".into()), ReportBullet::Warning { .. }));
    assert!(matches!(
        fail_bullet(DoctorError::MiscError { error: "x".into() }),
        ReportBullet::Failure { .. }
    ));
    assert!(matches!(report_bullet(Ok("a".into())), ReportBullet::Success { .. }));
    assert!(matches!(
        report_bullet(Err(DoctorError::OsCheckFailed("x".into()))),
        ReportBullet::Failure { .. }
    ));
    let mixed = vec![success_bullet("a".into()), warn_bullet("b".into())];
    assert!(!has_error(&mixed));
    assert!(has_warning(&mixed));
    let failed = vec![success_bullet("a".into()), fail_bullet(DoctorError::VarError(VarError::NotPresent))];
    assert!(has_error(&failed));
    assert!(!has_warning(&failed));
    assert!(!has_error(&vec![]));
    assert_eq!(command("Xcode 12.4\nBuild version 12D4e\n\n"), "Xcode 12.4\nBuild version 12D4e");
    assert_eq!(
        DoctorError::RegexSearchFailed { search_expr: "a".into(), details: "b".into() }.to_string(),
        "Unable to find: \"a\" in \"b\""
    );
}

#[test]
fn the_report_on_the_tool() {
    let report = check_cargo_mobile(&path("/home/me/.cargo-mobile"), true, Ok(Some("Fix".into())), Ok("cargo-mobile 0.1".into()));
    assert_eq!(report.status, DoctorStatus::Success);
    assert_eq!(report.headline, "cargo-mobile 0.1");
    assert_eq!(report.print(), "[âœ”]  cargo-mobile 0.1");
    assert_eq!(report.bullets.iter().map(text).collect::<Vec<_>>(), ["ok: Fix"]);
    let report = check_cargo_mobile(
        &path("/home/me/.cargo-mobile"),
        false,
        Ok(None),
        Err(DoctorError::OsCheckFailed("x".into())),
    );
    assert_eq!(report.status, DoctorStatus::Failure);
    assert_eq!(report.headline, "cargo mobile");
    assert_eq!(
        report.bullets.iter().map(text).collect::<Vec<_>>(),
        [
            "ok: commit info file not found",
            "warn: The /.cargo-mobile directory could not be found!",
            "warn: Unable to locate at /home/me/.cargo-mobile",
        ]
    );
}

#[test]
fn the_report_on_the_compiler() {
    let good = RustVersion::check("rustc 1.45.2 (d3fb005a3 2020-07-31)").unwrap();
    let report = check_rust(Ok(good), Host::MacOs);
    assert_eq!(report.status, DoctorStatus::Success);
    assert_eq!(report.headline, "rustc 1.45.2 (d3fb005a3 2020-7-31)");
    assert!(report.bullets.is_empty());
    let bad = RustVersion { triple: VersionTriple::new(1, 47, 0), flavor: None, details: None };
    let report = check_rust(Ok(bad), Host::MacOs);
    assert_eq!(report.status, DoctorStatus::Failure);
    assert!(text(&report.bullets[0]).starts_with(
        "fail: iOS linking is broken on Rust versions later than 1.45.2 (d3fb005a3 2020-07-31) and earlier than 1.49.0-nightly (ffa2e7ae8 2020-10-24), but you're on 1.47.0!\n    - Until"
    ));
    let report = check_rust(RustVersion::check("x"), Host::MacOs);
    assert_eq!(report.status, DoctorStatus::Failure);
    assert_eq!(report.headline, "rustc version could not be found.");
    assert_eq!(text(&report.bullets[0]), "fail: Failed to check Rust version");
}

#[test]
fn the_reports_on_systems_and_devices() {
    let report = check_os(Ok("11.2".into()));
    assert_eq!(report.headline, "Operating System: macos");
    assert_eq!(text(&report.bullets[0]), "ok: 11.2");
    let report = check_os(Err(RunAndSearchError::CommandFailed("no profiler".into())));
    assert_eq!(report.status, DoctorStatus::Success);
    assert_eq!(text(&report.bullets[0]), "fail: no profiler");

    let report = check_device_list(&vec![]);
    assert_eq!(report.status, DoctorStatus::Warning);
    assert_eq!(text(&report.bullets[0]), "warn: No connected devices were found");
    let report = check_device_list(&vec!["Pixel".to_string(), "iPhone".to_string()]);
    assert_eq!(report.status, DoctorStatus::Success);
    assert_eq!(report.headline, "Connected Devices");
    assert_eq!(report.bullets.iter().map(text).collect::<Vec<_>>(), ["ok: Pixel", "ok: iPhone"]);
}

#[test]
fn the_report_on_android() {
    let tools = AndroidTools {
        sdk_root: "/sdk".into(),
        sdk_source_properties: "Pkg.UserSrc=false\nPkg.Revision=26.1.1\n".into(),
        ndk_home: "/ndk".into(),
        ndk_source_properties: "Pkg.Desc = Android NDK\nPkg.Revision = 21.3.6528147\n".into(),
    };
    let report = check_android(Some(tools)).unwrap();
    assert_eq!(report.status, DoctorStatus::Success);
    assert_eq!(
        report.bullets.iter().map(text).collect::<Vec<_>>(),
        ["ok: SDK: /sdk (26.1.1)", "ok: NDK: /ndk (21.3.6528147)"]
    );
    let tools = AndroidTools {
        sdk_root: "/sdk".into(),
        sdk_source_properties: "nothing".into(),
        ndk_home: "/ndk".into(),
        ndk_source_properties: "Pkg.Revision = 21\n".into(),
    };
    match check_android(Some(tools)) {
        Err(DoctorError::RegexSearchFailed { search_expr, details }) => {
            assert_eq!(search_expr, SDK_REVISION_PATTERN);
            assert_eq!(details, "Unable to locate Android SDK version");
        }
        other => panic!("{:?}", other),
    }
    let report = check_android(None).unwrap();
    assert_eq!(report.status, DoctorStatus::Failure);
    assert_eq!(
        text(&report.bullets[0]),
        "warn: Failed to find ANDROID_SDK_ROOT or ANDROID_HOME environment variable!"
    );
    assert_eq!(find_revision(NDK_REVISION_PATTERN, "Pkg.Revision = 1.2", "d").unwrap(), "1.2");
    assert_eq!(find_revision(NDK_REVISION_PATTERN, "Pkg.Revision = x", "d").unwrap(), "");
    assert!(find_revision("(", "x", "d").is_err());
}

#[test]
fn the_report_on_apple() {
    let tools = || AppleTools {
        xcode_version: Ok("Xcode 12.4 Build version 12D4e".into()),
        xcode_select_version: Ok("xcode-select version 2384.".into()),
        ios_deploy_version: Err(DoctorError::OsCheckFailed("not found".into())),
        development_teams: Some(vec![("Jane".into(), "ABC".into())]),
    };
    let report = check_apple(tools(), validate_xcode_plugin(Ok(false)), Host::MacOs);
    assert_eq!(report.headline, "Apple Developer Tools");
    assert_eq!(report.status, DoctorStatus::Failure);
    assert_eq!(
        report.bullets.iter().map(text).collect::<Vec<_>>(),
        [
            "ok: Xcode 12.4 Build version 12D4e",
            "ok: xcode-select version 2384.",
            "fail: Failed to check installed macOS version",
            "ok: Xcode Rust.ideplugin is up to date.",
            "ok: Dev Team: Jane (ABC)",
        ]
    );
    let fine = AppleTools { ios_deploy_version: Ok("1.11".into()), ..tools() };
    assert_eq!(
        check_apple(fine, validate_xcode_plugin(Ok(false)), Host::MacOs).status,
        DoctorStatus::Success
    );
    let fine = AppleTools { ios_deploy_version: Ok("1.11".into()), ..tools() };
    assert_eq!(
        check_apple(fine, validate_xcode_plugin(Ok(false)), Host::Linux).status,
        DoctorStatus::Failure
    );
    let no_teams = AppleTools {
        ios_deploy_version: Ok("1.11".into()),
        development_teams: None,
        ..tools()
    };
    let report = check_apple(no_teams, validate_xcode_plugin(Err("io".into())), Host::MacOs);
    assert_eq!(report.status, DoctorStatus::Failure);
    assert_eq!(text(&report.bullets[3]), "fail: Unknown Error");
    assert_eq!(report.bullets.len(), 5);
    let (valid, _) = validate_xcode_plugin(Ok(true));
    assert!(!valid);
    let (valid, _) = validate_xcode_plugin(Ok(false));
    assert!(valid);
}

#[test]
fn xcode_paths_and_advice() {
    let app = path("/Applications/Xcode.app/Contents");
    assert_eq!(
        plugin_spec_path(&app, 12).to_string(),
        "/Applications/Xcode.app/Contents/SharedFrameworks/SourceModel.framework/Versions/A/Resources/LanguageSpecifications/Rust.xclangspec"
    );
    assert_eq!(
        plugin_spec_path(&app, 11).to_string(),
        plugin_spec_path(&app, 12).to_string()
    );
    assert_eq!(
        plugin_spec_path(&app, 10).to_string(),
        "/Applications/Xcode.app/Contents/Specifications/Rust.xclangspec"
    );
    assert_eq!(
        plugin_meta_path(&app).to_string(),
        "/Applications/Xcode.app/Contents/SharedFrameworks/SourceModel.framework/Versions/A/Resources/LanguageMetadata/Xcode.SourceCodeLanguage.Rust.plist"
    );
    assert!(validate_xcode_select(&app, "/Applications/Xcode.app/Contents/Developer").is_none());
    let advice = validate_xcode_select(&app, "/Library/Developer/CommandLineTools").unwrap();
    assert_eq!(
        advice.lines,
        [
            "xcode-select path was not in the Xcode app directory:",
            "Xcode App Directory: /Applications/Xcode.app/Contents",
            "Xcode Select:        /Library/Developer/CommandLineTools",
            "Recommended:         /Applications/Xcode.app/Contents/Developer",
        ]
    );
    assert_eq!(advice.fix.program, "xcode-select");
    assert_eq!(advice.fix.args.len(), 2);
}

#[test]
fn all_reports_in_order() {
    let summary = exec(
        check_device_list(&vec![]),
        check_os(Ok("a".into())),
        check_os(Ok("b".into())),
        check_os(Ok("c".into())),
        check_android(None).unwrap(),
        check_device_list(&vec!["d".into()]),
    );
    let headlines: Vec<&str> = summary.reports.iter().map(|r| r.headline.as_str()).collect();
    assert_eq!(
        headlines,
        [
            "Connected Devices",
            "Operating System: macos",
            "Operating System: macos",
            "Operating System: macos",
            "Android Build Tools",
            "Connected Devices"
        ]
    );
    let lines = summary.print();
    assert_eq!(lines.len(), 6);
    for (line, report) in lines.iter().zip(&summary.reports) {
        assert_eq!(line, &report.print());
        assert!(line.ends_with(&format!("]  {}", report.headline)));
    }
}

#[test]
fn sections_collect_items() {
    let section = Section::new("Title".into())
        .with_item(Ok("a".into()))
        .with_item(Err("b".into()))
        .with_victory("c".into())
        .with_failure("d".into())
        .with_victories(vec!["e".into(), "f".into()]);
    assert_eq!(section.title, "Title");
    assert_eq!(section.items.len(), 6);
    assert_eq!(victory(&section.items[0]), "a");
    assert_eq!(failure(&section.items[1]), "b");
    assert_eq!(victory(&section.items[5]), "f");
    assert!(section.has_failure());
    assert!(!section.is_empty());
    assert!(Section::new("x".into()).is_empty());
    assert!(!Section::new("x".into()).with_victory("v".into()).has_failure());
    assert!(Item::from_result(Err("x".into())).is_failure());
}

#[test]
fn the_android_section() {
    let kit = |version: Result<&str, &str>, at: &str| android::Kit {
        version: version.map(|s| s.to_string()).map_err(|s| s.to_string()),
        installed_at: at.to_string(),
    };
    let section = android::check(Ok((kit(Ok("26.1.1"), "~/sdk"), kit(Err("gone"), "~/ndk"))));
    assert_eq!(section.title, "Android developer tools");
    assert_eq!(victory(&section.items[0]), "SDK v26.1.1 installed at \"~/sdk\"");
    assert_eq!(failure(&section.items[1]), "Failed to get NDK version: gone");
    let section = android::check(Ok((kit(Err("x"), "s"), kit(Ok("r21e"), "~/ndk"))));
    assert_eq!(failure(&section.items[0]), "Failed to get SDK version: x");
    assert_eq!(victory(&section.items[1]), "NDK r21e installed at \"~/ndk\"");
    let section = android::check(Err("no sdk".into()));
    assert_eq!(section.items.len(), 1);
    assert_eq!(failure(&section.items[0]), "no sdk");
}

#[test]
fn the_section_on_the_tool() {
    let installation = tool::Installation {
        commit_msg: Ok(Some("Fix it".into())),
        exists: true,
        install_dir: "/home/me/.cargo-mobile".into(),
        contracted: "~/.cargo-mobile".into(),
    };
    let good = RustVersion::check("rustc 1.50.0 (abcdef012 2021-01-02)");
    let section = tool::check(
        "0.1.0",
        Ok(installation),
        tool::check_os(Ok("11.2".into())),
        tool::check_rust(good, Host::MacOs),
    );
    assert_eq!(section.title, "cargo-mobile 0.1.0");
    assert_eq!(victory(&section.items[0]), "Contains commits up to \"Fix it\"");
    assert_eq!(victory(&section.items[1]), "Installed at \"~/.cargo-mobile\"");
    assert_eq!(victory(&section.items[2]), "macOS v11.2");
    assert_eq!(victory(&section.items[3]), "rustc v1.50.0 (abcdef012 2021-1-2)");

    let installation = tool::Installation {
        commit_msg: Ok(None),
        exists: false,
        install_dir: "/home/me/.cargo-mobile".into(),
        contracted: "~/.cargo-mobile".into(),
    };
    let bad = Ok(RustVersion { triple: VersionTriple::new(1, 46, 0), flavor: None, details: None });
    let section = tool::check(
        "0.1.0",
        Ok(installation),
        tool::check_os(Err("no profiler".into())),
        tool::check_rust(bad, Host::MacOs),
    );
    assert_eq!(victory(&section.items[0]), "Installed commit message isn't present");
    assert_eq!(
        failure(&section.items[1]),
        "The cargo-mobile installation directory is missing! Checked at \"/home/me/.cargo-mobile\""
    );
    assert_eq!(failure(&section.items[2]), "no profiler");
    assert_eq!(
        failure(&section.items[3]),
        "iOS linking is broken on rustc v1.46.0; please update to 1.49.0 or later"
    );
    let section = tool::check("1", Err("no home".into()), Ok("o".into()), Ok("r".into()));
    assert_eq!(section.items.len(), 3);
    assert_eq!(failure(&section.items[0]), "no home");
    assert!(tool::check_rust(RustVersion::check("x"), Host::Linux).is_err());
}

#[test]
fn the_section_on_devices() {
    let section = device_list::check(None, None);
    assert_eq!(section.title, "Connected devices");
    assert_eq!(victory(&section.items[0]), "No connected devices were found");
    let section = device_list::check(Some(Ok(vec![])), Some(Ok(vec![])));
    assert_eq!(section.items.len(), 1);
    let section = device_list::check(
        Some(Err("no ios-deploy".into())),
        Some(Ok(vec!["Pixel".into(), "Emu".into()])),
    );
    assert_eq!(failure(&section.items[0]), "Failed to get iOS device list: no ios-deploy");
    assert_eq!(victory(&section.items[1]), "Pixel");
    assert_eq!(victory(&section.items[2]), "Emu");
    let section = device_list::check(None, Some(Err("no adb".into())));
    assert_eq!(failure(&section.items[0]), "Failed to get Android device list: no adb");
}

#[test]
fn the_whole_health_report() {
    let section = |title: &str| Section::new(title.to_string());
    let doctor = Doctor::check(section("a"), Some(section("b")), section("c"), section("d"));
    let titles: Vec<&str> = doctor.sections.iter().map(|s| s.title.as_str()).collect();
    assert_eq!(titles, ["a", "b", "c", "d"]);
    let doctor = Doctor::check(section("a"), None, section("c"), section("d"));
    assert_eq!(doctor.sections.len(), 3);
    assert_eq!(
        Unrecoverable::ContractHomeFailed("x".into()).to_string(),
        "Failed to prettify path: x"
    );
    assert_eq!(
        Unrecoverable::EnvInitFailed(EnvError::PathNotSet(VarError::NotPresent)).to_string(),
        "The `PATH` environment variable isn't set, which is super weird: environment variable not found"
    );
}
