use cargo_mobile::os::Host;
use cargo_mobile::util::pattern::{captures, line_captures, Captures};
use cargo_mobile::util::rust_version::{
    get_string_for_group, run_and_search, CaptureGroupError, RunAndSearchError, RustVersion,
    RustVersionDetails, RustVersionError, RustVersionFlavor,
};
use cargo_mobile::util::version::{VersionTriple, VersionTripleError};
use cargo_mobile::util::{
    command_present, format_commit_msg, host_target_triple, list_display, pipe, prepend_to_path,
    reverse_domain, unwrap_either, Lookup, OneOrMany, PipeError,
};

fn strings(items: &[&str]) -> Vec<String> {
    items.iter().map(|s| s.to_string()).collect()
}

#[test]
fn lists_read_as_in_a_sentence() {
    assert_eq!(list_display(&strings(&[])), "");
    assert_eq!(list_display(&strings(&["a"])), "a");
    assert_eq!(list_display(&strings(&["a", "b"])), "a and b");
    assert_eq!(list_display(&strings(&["a", "b", "c"])), "a, b, and c");
    assert_eq!(list_display(&strings(&["a", "b", "c", "d"])), "a, b, c, and d");
}

#[test]
fn domains_are_reversed_label_by_label() {
    assert_eq!(reverse_domain("com.example"), "example.com");
    assert_eq!(reverse_domain("a.b.c"), "c.b.a");
    assert_eq!(reverse_domain("single"), "single");
    assert_eq!(reverse_domain(""), "");
    assert_eq!(reverse_domain("a."), ".a");
}

#[test]
fn reversing_a_domain_twice_gives_it_back() {
    for domain in ["com.example", "a.b.c.d", "x", "", ".a..b."] {
        assert_eq!(reverse_domain(&reverse_domain(domain)), domain);
    }
}

#[test]
fn small_helpers() {
    assert_eq!(prepend_to_path("/ndk", "/usr/bin:/bin"), "/ndk:/usr/bin:/bin");
    assert_eq!(
        format_commit_msg(String::from("Fix \"it\"")),
        "Contains commits up to \"Fix \\\"it\\\"\""
    );
    assert_eq!(unwrap_either::<u8>(Ok(1)), 1);
    assert_eq!(unwrap_either::<u8>(Err(2)), 2);
    assert_eq!(OneOrMany::One(5).into_vec(), vec![5]);
    assert_eq!(OneOrMany::Many(vec![1, 2]).into_vec(), vec![1, 2]);
    assert_eq!(OneOrMany::<u8>::Many(vec![]).into_vec(), Vec::<u8>::new());
}

#[test]
fn captures_hold_groups_by_number_and_name() {
    let caps = captures(r"(?P<name>\w+) \((\d+)\)( x)?", "see foo (12) there").unwrap().unwrap();
    assert_eq!(caps.get(0), Some(String::from("foo (12)")));
    assert_eq!(caps.get(1), Some(String::from("foo")));
    assert_eq!(caps.get(2), Some(String::from("12")));
    assert_eq!(caps.get(3), None);
    assert_eq!(caps.get(4), None);
    assert_eq!(caps.name("name"), Some(String::from("foo")));
    assert_eq!(caps.name("other"), None);
    assert_eq!(caps.names, vec![None, Some(String::from("name")), None, None]);
}

#[test]
fn captures_tell_no_match_from_no_pattern() {
    assert!(captures(r"\d+", "none").unwrap().is_none());
    let err = captures(r"(", "text").unwrap_err();
    assert_eq!(err.pattern, "(");
    assert!(line_captures(r"[", "text").is_err());
}

#[test]
fn line_captures_find_every_match() {
    let found = line_captures(r"^(\w+)=(\d+)$", "a=1\nb=x\nc=3").unwrap();
    assert_eq!(
        found,
        vec![
            vec![Some(String::from("a=1")), Some(String::from("a")), Some(String::from("1"))],
            vec![Some(String::from("c=3")), Some(String::from("c")), Some(String::from("3"))],
        ]
    );
}

#[test]
fn captures_written_by_hand_are_looked_up_alike() {
    let caps = Captures {
        names: vec![None, Some(String::from("a")), Some(String::from("b")), Some(String::from("a"))],
        groups: vec![Some(String::from("whole")), None, Some(String::from("B")), Some(String::from("late"))],
    };
    assert_eq!(caps.name("a"), None);
    assert_eq!(caps.name("b"), Some(String::from("B")));
    assert_eq!(get_string_for_group(&caps, "b", "text").unwrap(), "B");
    match get_string_for_group(&caps, "c", "text") {
        Err(CaptureGroupError::InvalidCaptureGroup { group, string }) => {
            assert_eq!(group, "c");
            assert_eq!(string, "text");
        }
        other => panic!("{:?}", other),
    }
    assert_eq!(
        get_string_for_group(&caps, "a", "x y").unwrap_err().to_string(),
        "Capture group \"a\" missing from string \"x y\""
    );
}

#[test]
fn search_failures_name_command_and_output() {
    match run_and_search("tool -v", r"\d+", "none") {
        Err(RunAndSearchError::SearchFailed { command, output }) => {
            assert_eq!(command, "tool -v");
            assert_eq!(output, "none");
        }
        other => panic!("{:?}", other),
    }
    assert_eq!(
        run_and_search("tool -v", r"\d+", "none").unwrap_err().to_string(),
        "\"tool -v\" output failed to match regex: \"none\""
    );
    assert!(matches!(
        run_and_search("tool", "(", "x"),
        Err(RunAndSearchError::PatternInvalid { .. })
    ));
    assert!(run_and_search("tool", r"\d+", "a 12 b").is_ok());
}

#[test]
fn rustc_version_line_is_read() {
    let version = RustVersion::check("rustc 1.45.2 (d3fb005a3 2020-07-31)\n").unwrap();
    assert_eq!(version.triple, VersionTriple::new(1, 45, 2));
    assert!(version.flavor.is_none());
    let details = version.details.as_ref().unwrap();
    assert_eq!(details.hash, "d3fb005a3");
    assert_eq!(details.date, (2020, 7, 31));
    assert_eq!(version.to_string(), "1.45.2 (d3fb005a3 2020-7-31)");

    let nightly = RustVersion::check("rustc 1.49.0-nightly (ffa2e7ae8 2020-10-24)").unwrap();
    assert_eq!(nightly.flavor.as_ref().unwrap().flavor, "nightly");
    assert_eq!(nightly.flavor.as_ref().unwrap().candidate, None);
    assert_eq!(nightly.to_string(), "1.49.0-nightly (ffa2e7ae8 2020-10-24)");

    let beta = RustVersion::check("rustc 1.50.0-beta.3 (abcdef012 2021-01-02)").unwrap();
    assert_eq!(beta.flavor.as_ref().unwrap().flavor, "beta");
    assert_eq!(beta.flavor.as_ref().unwrap().candidate, Some(String::from("3")));
    assert_eq!(beta.to_string(), "1.50.0-beta.3 (abcdef012 2021-1-2)");

    let homebrew = RustVersion::check("rustc 1.48.0").unwrap();
    assert!(homebrew.details.is_none());
    assert_eq!(homebrew.to_string(), "1.48.0");
}

#[test]
fn rustc_version_errors() {
    match RustVersion::check("cargo 1.0.0") {
        Err(RustVersionError::CommandFailed(RunAndSearchError::SearchFailed { command, output })) => {
            assert_eq!(command, "rustc --version");
            assert_eq!(output, "cargo 1.0.0");
        }
        other => panic!("{:?}", other),
    }
    match RustVersion::check("rustc 1.99999999999.0") {
        Err(RustVersionError::TripleInvalid(VersionTripleError::MinorInvalid { version, .. })) => {
            assert_eq!(version, "1.99999999999.0");
        }
        other => panic!("{:?}", other),
    }
    assert_eq!(
        RustVersion::check("nothing").unwrap_err().to_string(),
        "Failed to check rustc version: \"rustc --version\" output failed to match regex: \"nothing\""
    );
}

#[test]
fn rustc_version_from_captures_written_by_hand() {
    let names = ["", "version", "major", "minor", "patch", "details", "hash", "date", "year", "month", "day"];
    let values = ["rustc 1.2.3 (h 1-2-x)", "1.2.3", "1", "2", "3", " (h 1-2-x)", "h", "1-2-x", "1", "2", "x"];
    let caps = Captures {
        names: names.iter().map(|n| if n.is_empty() { None } else { Some(n.to_string()) }).collect(),
        groups: values.iter().map(|v| Some(v.to_string())).collect(),
    };
    match RustVersion::from_captures(&caps) {
        Err(RustVersionError::DayInvalid { date, .. }) => assert_eq!(date, "1-2-x"),
        other => panic!("{:?}", other),
    }
    let (triple, text) = VersionTriple::from_caps(&caps).unwrap();
    assert_eq!(triple, VersionTriple::new(1, 2, 3));
    assert_eq!(text, "1.2.3");
}

#[test]
fn validity_depends_on_host_version_and_date() {
    let version = |major, minor, patch, date: Option<(u32, u32, u32)>| RustVersion {
        triple: VersionTriple::new(major, minor, patch),
        flavor: Some(RustVersionFlavor { flavor: String::from("nightly"), candidate: None }),
        details: date.map(|date| RustVersionDetails { hash: String::from("000000000"), date }),
    };
    assert!(version(1, 45, 2, None).valid(Host::MacOs));
    assert!(version(1, 0, 0, Some((2015, 5, 15))).valid(Host::MacOs));
    assert!(!version(1, 45, 3, Some((2020, 8, 1))).valid(Host::MacOs));
    assert!(!version(1, 48, 0, Some((2020, 11, 1))).valid(Host::MacOs));
    assert!(!version(1, 49, 0, Some((2020, 10, 23))).valid(Host::MacOs));
    assert!(version(1, 49, 0, Some((2020, 10, 24))).valid(Host::MacOs));
    assert!(version(1, 49, 0, Some((2020, 11, 1))).valid(Host::MacOs));
    assert!(version(1, 49, 0, Some((2021, 1, 1))).valid(Host::MacOs));
    assert!(!version(1, 49, 0, Some((2019, 12, 31))).valid(Host::MacOs));
    assert!(version(1, 49, 0, None).valid(Host::MacOs));
    assert!(version(1, 47, 0, None).valid(Host::Linux));
    assert!(version(1, 47, 0, None).valid(Host::Windows64));
}

#[test]
fn host_triple_is_the_first_group() {
    let output = "rustc 1.50.0\nbinary: rustc\nhost: x86_64-unknown-linux-gnu\nrelease: 1.50.0\n";
    assert_eq!(host_target_triple(output).unwrap(), "x86_64-unknown-linux-gnu");
    assert!(host_target_triple("binary: rustc").is_err());
}

#[test]
fn a_search_that_exited_found_nothing() {
    assert_eq!(command_present(Lookup::Found), Ok(true));
    assert_eq!(command_present(Lookup::Exited), Ok(false));
    assert_eq!(command_present(Lookup::Failed(String::from("killed"))), Err(String::from("killed")));
}

#[test]
fn a_failed_write_counts_for_more_than_a_failed_wait() {
    assert!(matches!(pipe(Ok(()), Ok(())), Ok(true)));
    assert!(matches!(pipe(Err(String::from("w")), Err(String::from("x"))), Err(PipeError::PipeFailed(_))));
    assert!(matches!(pipe(Ok(()), Err(String::from("x"))), Err(PipeError::WaitFailed(_))));
    assert_eq!(
        PipeError::WaitFailed(String::from("x")).to_string(),
        "Failed to wait for receiving command to exit: x"
    );
}
