use cargo_mobile::config::app::domain::{check_domain_syntax, DomainError};

#[test]
fn test_check_domain_syntax_correct() {
    for input in ["com.example", "t2900.e1.s709.t1000", "kotlin.com", "java.test"] {
        assert_eq!(check_domain_syntax(input).unwrap(), ());
    }
}

#[test]
fn test_check_domain_syntax_error() {
    let cases: Vec<(&str, DomainError)> = vec![
        (
            "ラスト.テスト",
            DomainError::NotAsciiAlphanumeric { bad_chars: vec!['ラ', 'ス', 'ト'] },
        ),
        ("test.digits.87", DomainError::StartsWithDigit { label: String::from("87") }),
        ("", DomainError::Empty {}),
        (".bad.dot.syntax", DomainError::StartsOrEndsWithADot {}),
        ("com.kotlin", DomainError::ReservedPackageName { package_name: String::from("kotlin") }),
        ("com..empty.label", DomainError::EmptyLabel),
    ];
    for (input, error) in cases {
        assert_eq!(check_domain_syntax(input).unwrap_err().to_string(), error.to_string());
    }
}

#[test]
fn domain_errors_carry_what_was_wrong() {
    match check_domain_syntax("a-b.c_d-e") {
        Err(DomainError::NotAsciiAlphanumeric { bad_chars }) => assert_eq!(bad_chars, vec!['-']),
        other => panic!("{:?}", other),
    }
    match check_domain_syntax("ab.c-d_d-") {
        Err(DomainError::NotAsciiAlphanumeric { bad_chars }) => {
            assert_eq!(bad_chars, vec!['-', '_'])
        }
        other => panic!("{:?}", other),
    }
    match check_domain_syntax("com.java") {
        Err(DomainError::ReservedPackageName { package_name }) => assert_eq!(package_name, "java"),
        other => panic!("{:?}", other),
    }
    assert!(matches!(check_domain_syntax("com."), Err(DomainError::StartsOrEndsWithADot)));
    assert!(matches!(check_domain_syntax("."), Err(DomainError::StartsOrEndsWithADot)));
    match check_domain_syntax("com.1a") {
        Err(DomainError::StartsWithDigit { label }) => assert_eq!(label, "1a"),
        other => panic!("{:?}", other),
    }
}

#[test]
fn the_first_label_with_a_fault_decides() {
    assert!(matches!(check_domain_syntax("a..9"), Err(DomainError::EmptyLabel)));
    assert!(matches!(check_domain_syntax("9a..b"), Err(DomainError::StartsWithDigit { .. })));
    assert!(matches!(
        check_domain_syntax("a!.9.kotlin"),
        Err(DomainError::NotAsciiAlphanumeric { .. })
    ));
    assert!(matches!(
        check_domain_syntax("9!"),
        Err(DomainError::StartsWithDigit { .. })
    ));
}

#[test]
fn domain_error_sentences() {
    assert_eq!(DomainError::Empty.to_string(), "Domain can't be empty");
    assert_eq!(
        DomainError::NotAsciiAlphanumeric { bad_chars: vec!['-', '!'] }.to_string(),
        "\"-!\" are not valid ASCII alphanumeric characters"
    );
    assert_eq!(
        DomainError::StartsWithDigit { label: String::from("87") }.to_string(),
        "\"87\" label starts with a digit, which is invalid"
    );
    assert_eq!(
        DomainError::ReservedPackageName { package_name: String::from("java") }.to_string(),
        "\"java\" is reserved and cannot be used"
    );
    assert_eq!(
        DomainError::StartsOrEndsWithADot.to_string(),
        "Domain can't start or end with a dot"
    );
    assert_eq!(DomainError::EmptyLabel.to_string(), "Labels cannot be empty");
}
