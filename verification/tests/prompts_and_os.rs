use cargo_mobile::env::{VarValue, Vars};
use cargo_mobile::os::linux::xdg::{
    build_command, find_entry_in_dir, get_xdg_data_dirs, query_mime_command, query_mime_entry,
    Entry, Node,
};
use cargo_mobile::os::linux::{self, Application, DetectEditorError, EntrySearch, OpenFileError};
use cargo_mobile::os::windows::windows::{detect_type_editor, FileType, WindowsError};
use cargo_mobile::os::windows::{self, info};
use cargo_mobile::os::Host;
use cargo_mobile::project::{
    self, find_last_dot, overwrite_allowed, overwrite_target_of, to_overwrite,
};
use cargo_mobile::util::disk::{Disk, Kind};
use cargo_mobile::util::path::PathParts;
use cargo_mobile::util::prompt::{
    self, default_message, list, list_default, list_display_only, minimal, minimal_message,
    yes_no, yes_no_hint, ListRetry, YesOrNo,
};
use cargo_mobile::util::rust_version::RunAndSearchError;
use cargo_mobile::util::{open_in_editor, rustup_add, OpenInEditorError};

fn path(text: &str) -> PathParts {
    PathParts::from_slashed(text)
}

fn plain(command: &cargo_mobile::util::command::Command) -> Vec<String> {
    command
        .args
        .iter()
        .map(|arg| match arg {
            cargo_mobile::util::command::Arg::Plain(s) => s.clone(),
            cargo_mobile::util::command::Arg::Parsed(s) => format!("<{}>", s),
        })
        .collect()
}

#[test]
fn yes_and_no() {
    assert_eq!(yes_no("y", None), (Some(YesOrNo::Yes), false));
    assert_eq!(yes_no("Y", Some(YesOrNo::No)), (Some(YesOrNo::Yes), false));
    assert_eq!(yes_no("n", Some(YesOrNo::Yes)), (Some(YesOrNo::No), false));
    assert_eq!(yes_no("N", None), (Some(YesOrNo::No), false));
    assert_eq!(yes_no("", Some(YesOrNo::Yes)), (Some(YesOrNo::Yes), false));
    assert_eq!(yes_no("", None), (None, false));
    assert_eq!(yes_no("yes", Some(YesOrNo::Yes)), (None, true));
    assert_eq!(yes_no("x", None), (None, true));
    assert_eq!(yes_no_hint(Some(YesOrNo::Yes)), "[Y/n]");
    assert_eq!(yes_no_hint(Some(YesOrNo::No)), "[y/N]");
    assert_eq!(yes_no_hint(None), "[y/n]");
    assert!(YesOrNo::Yes.yes() && !YesOrNo::Yes.no() && YesOrNo::No.no());
}

#[test]
fn answers_and_defaults() {
    assert_eq!(minimal("  TEAM1 \n"), "TEAM1");
    assert_eq!(minimal("\n"), "");
    assert_eq!(minimal_message("Pick"), "Pick: ");
    assert_eq!(default_message("Team", Some("0")), "Team (0)");
    assert_eq!(default_message("Team", None), "Team");
    assert_eq!(prompt::default(String::new(), Some("0")), "0");
    assert_eq!(prompt::default(String::from("3"), Some("0")), "3");
    assert_eq!(prompt::default(String::new(), None), "");
}

#[test]
fn picking_from_a_list() {
    assert_eq!(list("0", 1), Ok(0));
    assert_eq!(list("2", 3), Ok(2));
    assert_eq!(list("3", 3), Err(ListRetry::TooHigh));
    assert_eq!(list("0", 0), Err(ListRetry::TooHigh));
    assert_eq!(list("", 3), Err(ListRetry::Empty));
    assert_eq!(list("two", 3), Err(ListRetry::NotANumber));
    assert_eq!(list("-1", 3), Err(ListRetry::NotANumber));
    assert_eq!(list_default(1), Some("0"));
    assert_eq!(list_default(0), None);
    assert_eq!(list_default(2), None);
    assert_eq!(list_display_only(0), Some("  -- none --"));
    assert_eq!(list_display_only(2), None);
    assert_eq!(ListRetry::Empty.message(), "Not to be pushy, but you need to pick a device.");
    assert_eq!(ListRetry::NotANumber.message(), "Hey, that wasn't a number! You're silly.");
    assert_eq!(ListRetry::TooHigh.message(), "There's no device with an index that high.");
}

#[test]
fn templates_are_written_to_their_stems() {
    assert_eq!(overwrite_target_of(&path("src/main.rs.hbs")).to_string(), "main.rs");
    assert_eq!(overwrite_target_of(&path("Cargo.toml.hbs")).to_string(), "Cargo.toml");
    assert_eq!(overwrite_target_of(&path("src/main.rs")).to_string(), "src/main.rs");
    assert_eq!(overwrite_target_of(&path(".hbs")).to_string(), ".hbs");
    assert_eq!(overwrite_target_of(&path("a/.gitignore")).to_string(), "a/.gitignore");
    assert_eq!(overwrite_target_of(&path("a/..")).to_string(), "a/..");
    assert_eq!(overwrite_target_of(&path("a/x.hbs.bak")).to_string(), "a/x.hbs.bak");
    assert_eq!(overwrite_target_of(&path("")).to_string(), "");
    for name in ["main.rs.hbs", ".hbs", "a", "a.", ".a.b", "..", "x.y.z", ""] {
        let chars: Vec<char> = name.chars().collect();
        let expected = std::path::Path::new(name)
            .extension()
            .map(|e| name.len() - e.len() - 1);
        if name != ".." {
            assert_eq!(find_last_dot(&chars), expected, "{:?}", name);
        }
    }
}

#[test]
fn files_that_would_be_overwritten() {
    let disk = Disk {
        entries: vec![
            (path("Cargo.toml"), Kind::File),
            (path("src"), Kind::Dir),
            (path("src/main.rs"), Kind::File),
        ],
    };
    let entries = vec![
        path("Cargo.toml.hbs"),
        path("src"),
        path("src/main.rs"),
        path("src/lib.rs.hbs"),
        path("README.md"),
    ];
    let found: Vec<String> = to_overwrite(&entries, &disk).iter().map(|p| p.to_string()).collect();
    assert_eq!(found, ["Cargo.toml", "src/main.rs"]);
    assert!(project::gen(true, &to_overwrite(&entries, &disk)));
    assert!(!project::gen(false, &to_overwrite(&entries, &disk)));
    assert!(!project::gen(true, &vec![]));
    assert!(overwrite_allowed(Some(YesOrNo::Yes)).is_ok());
    assert!(overwrite_allowed(Some(YesOrNo::No)).is_err());
    match overwrite_allowed(None) {
        Err(e) => {
            assert_eq!(e.report().msg, "Failed to get persmission to overwrite project files");
            assert_eq!(e.report().details, "");
        }
        Ok(()) => panic!(),
    }
}

#[test]
fn desktop_entries_are_searched_depth_first() {
    let file = |name: &str| Entry { name: name.to_string(), node: Node::File };
    let dir = |name: &str, inner: Vec<Entry>| Entry { name: name.to_string(), node: Node::Dir(inner) };
    let tree = vec![
        file("a.desktop"),
        Entry { name: "code.desktop".to_string(), node: Node::Other },
        dir("empty", vec![]),
        dir("kde", vec![file("x.desktop"), dir("deep", vec![file("code.desktop")])]),
        file("code.desktop"),
    ];
    assert_eq!(
        find_entry_in_dir(&tree, "code.desktop"),
        Some(vec!["kde".to_string(), "deep".to_string(), "code.desktop".to_string()])
    );
    assert_eq!(find_entry_in_dir(&tree, "a.desktop"), Some(vec!["a.desktop".to_string()]));
    assert_eq!(find_entry_in_dir(&tree, "kde"), None);
    assert_eq!(find_entry_in_dir(&tree, "none"), None);
    assert_eq!(find_entry_in_dir(&vec![], "x"), None);
}

#[test]
fn command_lines_get_the_file_put_in() {
    assert_eq!(build_command("code %F", "/a b"), "code /a b");
    assert_eq!(build_command("gvim -f %f --x %u", "x"), "gvim -f x --x x");
    assert_eq!(build_command("kate -b %U", "f.rs"), "kate -b f.rs");
    assert_eq!(build_command("plain", "x"), "plain");
    assert_eq!(build_command("100% %c %", "x"), "100% %c %");
    assert_eq!(build_command("%%u", "x"), "%x");
    assert_eq!(build_command("%f", "%f"), "%f");
    assert_eq!(build_command("", "x"), "");
}

#[test]
fn desktop_directories() {
    let vars = |entries: &[(&str, &str)]| Vars {
        entries: entries
            .iter()
            .map(|(k, v)| (k.to_string(), VarValue::Text(v.to_string())))
            .collect(),
    };
    assert_eq!(
        get_xdg_data_dirs(&vars(&[("HOME", "/home/me")])),
        ["/home/me/.local/share", "/usr/local/share", "/usr/share"]
    );
    assert_eq!(
        get_xdg_data_dirs(&vars(&[
            ("HOME", "/home/me"),
            ("XDG_DATA_HOME", "/data"),
            ("XDG_DATA_DIRS", "/a:/b")
        ])),
        ["/data", "/a", "/b"]
    );
    assert_eq!(
        get_xdg_data_dirs(&vars(&[("XDG_DATA_HOME", "/data")])),
        ["/usr/local/share", "/usr/share"]
    );
    assert_eq!(query_mime_entry("code.desktop\n"), Some("code.desktop".to_string()));
    assert_eq!(query_mime_entry(""), None);
    assert_eq!(query_mime_entry("\n"), Some(String::new()));
    assert_eq!(plain(&query_mime_command("text/rust")), ["query", "default", "text/rust"]);
}

#[test]
fn editors_on_linux() {
    let app = || Application {
        exec_command: "code %F".into(),
        icon: None,
        xdg_entry_path: path("/usr/share/applications/code.desktop"),
    };
    assert!(Application::detect_editor(Some("code.desktop".into()), EntrySearch::Found(app())).is_ok());
    assert_eq!(
        Application::detect_editor(None, EntrySearch::Found(app())).unwrap_err(),
        DetectEditorError::NoDefaultEditorSet
    );
    assert_eq!(
        Application::detect_editor(Some("x".into()), EntrySearch::NotFound).unwrap_err(),
        DetectEditorError::FreeDesktopEntryNotFound
    );
    assert_eq!(
        Application::detect_editor(Some("x".into()), EntrySearch::Unreadable).unwrap_err().to_string(),
        "Entry Parse Error: xdg-mime returned an entry that could not be parsed"
    );
    let command = Application::open_file(&vec!["code".to_string(), "-n".to_string(), "f.rs".to_string()])
        .unwrap();
    assert_eq!(command.program, "code");
    assert_eq!(plain(&command), ["-n", "f.rs"]);
    assert!(matches!(
        Application::open_file(&vec![]),
        Err(OpenFileError::CommandParsingFailed)
    ));
    assert_eq!(OpenFileError::LaunchFailed("x".into()).to_string(), "Launch failed: x");
    assert_eq!(linux::open_file_with("gedit", None).program, "gedit");
    assert_eq!(linux::open_file_with("gedit", Some(vec![])).program, "gedit");
    assert_eq!(
        plain(&linux::open_file_with("gedit", Some(vec!["gedit".into(), "f".into()]))),
        ["f"]
    );
    assert_eq!(plain(&linux::command_path("adb")), ["-c", "command -v adb"]);
    assert!(open_in_editor(Ok(app()), &vec!["code".to_string()]).is_ok());
    assert_eq!(
        open_in_editor(Err(DetectEditorError::NoDefaultEditorSet), &vec![]).unwrap_err().to_string(),
        "Failed to detect editor: No default editor is set: xdg-mime queries for \"text/rust\" and \"text/plain\" both failed"
    );
    assert!(matches!(
        open_in_editor(Ok(app()), &vec![]),
        Err(OpenInEditorError::OpenFailed(_))
    ));
    assert_eq!(plain(&rustup_add("aarch64-apple-ios")), ["target", "add", "aarch64-apple-ios"]);
}

#[test]
fn editors_and_versions_on_windows() {
    assert_eq!(detect_type_editor(FileType::Rust), ".rs");
    assert_eq!(detect_type_editor(FileType::Text), ".txt");
    let editor = windows::Application::detect_editor(Err(WindowsError::False), Ok("notepad.exe".into()))
        .unwrap();
    assert_eq!(editor.exec_command, "notepad.exe");
    let editor = windows::Application::detect_editor(Ok("code.exe".into()), Ok("notepad.exe".into()))
        .unwrap();
    assert_eq!(editor.exec_command, "code.exe");
    assert_eq!(plain(&editor.open_file("C:/f.rs")), ["C:/f.rs"]);
    assert_eq!(
        windows::Application::detect_editor(Err(WindowsError::Unknown), Err(WindowsError::False))
            .unwrap_err()
            .to_string(),
        "No default editor is set: registry queries for \".rs\" and \".txt\" both failed"
    );
    assert_eq!(windows::open_file_with("notepad", "f").program, "notepad");
    assert_eq!(plain(&windows::command_path("adb")), ["-Command", "adb"]);
    let found = info::check("\r\n[Microsoft Windows 10.0.19042.867]\r\n").unwrap();
    assert_eq!(found.name, "Windows");
    assert_eq!(found.version, "10.0.19042.867");
    // The bracket has to stand in front of the name.
    assert!(matches!(
        info::check("Microsoft Windows [Version 10.0.19042.867]"),
        Err(RunAndSearchError::SearchFailed { .. })
    ));
    assert!(matches!(info::check("Linux"), Err(RunAndSearchError::SearchFailed { .. })));
    let named = cargo_mobile::os::Info::check("[Microsoft Windows 6.1.7601]").unwrap();
    assert_eq!((named.name.as_str(), named.version.as_str()), ("Windows", "6.1.7601"));
    assert!(cargo_mobile::os::Info::check("").is_err());
    assert!(Host::Windows32.is_windows() && Host::Windows64.is_windows());
    assert!(!Host::Linux.is_windows() && !Host::MacOs.is_windows());
    assert!(Host::MacOs.is_macos() && !Host::Linux.is_macos());
}
