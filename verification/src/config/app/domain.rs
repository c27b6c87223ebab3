//! The syntax of an app's domain, such as `com.example`.
//!
//! The domain becomes a package name on Android, so its labels must be
//! identifiers there, and the package must not collide with a name that the
//! toolchain reserves.

use crate::decimal::is_digit;
use crate::text::{chars_of, split, split_str, string_of};
use vstd::prelude::*;
use vstd::string::*;

verus! {

/// Why a text is no domain.
#[derive(Debug)]
pub enum DomainError {
    Empty,
    NotAsciiAlphanumeric { bad_chars: Vec<char> },
    StartsWithDigit { label: String },
    ReservedPackageName { package_name: String },
    StartsOrEndsWithADot,
    EmptyLabel,
}

/// A `DomainError` with its texts as sequences of characters.
pub enum DomainErrorView {
    Empty,
    NotAsciiAlphanumeric { bad_chars: Seq<char> },
    StartsWithDigit { label: Seq<char> },
    ReservedPackageName { package_name: Seq<char> },
    StartsOrEndsWithADot,
    EmptyLabel,
}

impl View for DomainError {
    type V = DomainErrorView;

    open spec fn view(&self) -> DomainErrorView {
        match self {
            DomainError::Empty => DomainErrorView::Empty,
            DomainError::NotAsciiAlphanumeric { bad_chars } => {
                DomainErrorView::NotAsciiAlphanumeric { bad_chars: bad_chars@ }
            },
            DomainError::StartsWithDigit { label } => {
                DomainErrorView::StartsWithDigit { label: label@ }
            },
            DomainError::ReservedPackageName { package_name } => {
                DomainErrorView::ReservedPackageName { package_name: package_name@ }
            },
            DomainError::StartsOrEndsWithADot => DomainErrorView::StartsOrEndsWithADot,
            DomainError::EmptyLabel => DomainErrorView::EmptyLabel,
        }
    }
}

impl DomainErrorView {
    /// The sentence that describes the error.
    pub open spec fn message(self) -> Seq<char> {
        match self {
            DomainErrorView::Empty => "Domain can't be empty"@,
            DomainErrorView::NotAsciiAlphanumeric { bad_chars } => {
                "\""@ + bad_chars + "\" are not valid ASCII alphanumeric characters"@
            },
            DomainErrorView::StartsWithDigit { label } => {
                "\""@ + label + "\" label starts with a digit, which is invalid"@
            },
            DomainErrorView::ReservedPackageName { package_name } => {
                "\""@ + package_name + "\" is reserved and cannot be used"@
            },
            DomainErrorView::StartsOrEndsWithADot => "Domain can't start or end with a dot"@,
            DomainErrorView::EmptyLabel => "Labels cannot be empty"@,
        }
    }
}

impl DomainError {
    pub fn to_string(&self) -> (r: String)
        ensures
            r@ == self@.message(),
    {
        match self {
            DomainError::Empty => "Domain can't be empty".to_owned(),
            DomainError::NotAsciiAlphanumeric { bad_chars } => {
                "\"".to_owned().concat(string_of(bad_chars, 0, bad_chars.len()).as_str()).concat(
                    "\" are not valid ASCII alphanumeric characters",
                )
            },
            DomainError::StartsWithDigit { label } => {
                "\"".to_owned().concat(label.as_str()).concat(
                    "\" label starts with a digit, which is invalid",
                )
            },
            DomainError::ReservedPackageName { package_name } => {
                "\"".to_owned().concat(package_name.as_str()).concat(
                    "\" is reserved and cannot be used",
                )
            },
            DomainError::StartsOrEndsWithADot => "Domain can't start or end with a dot".to_owned(),
            DomainError::EmptyLabel => "Labels cannot be empty".to_owned(),
        }
    }
}

/// An ASCII letter or digit.
pub open spec fn is_ascii_alphanumeric(c: char) -> bool {
    ('a' <= c && c <= 'z') || ('A' <= c && c <= 'Z') || ('0' <= c && c <= '9')
}

/// The characters of `label` that are no ASCII letters or digits, each
/// once, in the order in which they first occur.
pub open spec fn bad_chars(label: Seq<char>) -> Seq<char>
    decreases label.len(),
{
    if label.len() == 0 {
        Seq::<char>::empty()
    } else {
        let front = bad_chars(label.drop_last());
        let c = label.last();
        if is_ascii_alphanumeric(c) || front.contains(c) {
            front
        } else {
            front.push(c)
        }
    }
}

/// What is wrong with one label, if anything: it is empty, or starts with
/// a digit, or holds a character that is no ASCII letter or digit.
pub open spec fn label_error(label: Seq<char>) -> Option<DomainErrorView> {
    if label.len() == 0 {
        Some(DomainErrorView::EmptyLabel)
    } else if is_digit(label[0]) {
        Some(DomainErrorView::StartsWithDigit { label })
    } else if bad_chars(label).len() > 0 {
        Some(DomainErrorView::NotAsciiAlphanumeric { bad_chars: bad_chars(label) })
    } else {
        None
    }
}

/// The error of the first label that has one.
pub open spec fn first_label_error(labels: Seq<Seq<char>>) -> Option<DomainErrorView>
    decreases labels.len(),
{
    if labels.len() == 0 {
        None
    } else {
        match first_label_error(labels.drop_last()) {
            Some(e) => Some(e),
            None => label_error(labels.last()),
        }
    }
}

/// A package name that the Android toolchain keeps for itself.
pub open spec fn is_reserved(name: Seq<char>) -> bool {
    name == "kotlin"@ || name == "java"@
}

/// Whether `domain` is a domain, and if not, why: the checks come in the
/// order empty text, dot at an end, labels from the left, reserved last
/// label.
pub open spec fn check_domain(domain: Seq<char>) -> Result<(), DomainErrorView> {
    let labels = split(domain, '.');
    if domain.len() == 0 {
        Err(DomainErrorView::Empty)
    } else if domain[0] == '.' || domain.last() == '.' {
        Err(DomainErrorView::StartsOrEndsWithADot)
    } else {
        match first_label_error(labels) {
            Some(e) => Err(e),
            None => if is_reserved(labels.last()) {
                Err(DomainErrorView::ReservedPackageName { package_name: labels.last() })
            } else {
                Ok(())
            },
        }
    }
}

fn char_is_alphanumeric(c: char) -> (r: bool)
    ensures
        r == is_ascii_alphanumeric(c),
{
    ('a' <= c && c <= 'z') || ('A' <= c && c <= 'Z') || ('0' <= c && c <= '9')
}

fn holds(v: &Vec<char>, c: char) -> (r: bool)
    ensures
        r == v@.contains(c),
{
    let mut i: usize = 0;
    while i < v.len()
        invariant
            i <= v.len(),
            forall|j: int| 0 <= j < i ==> v@[j] != c,
        decreases v.len() - i,
    {
        if v[i] == c {
            return true;
        }
        i += 1;
    }
    false
}

/// The characters of `label` that are no ASCII letters or digits.
fn collect_bad_chars(label: &Vec<char>) -> (bad: Vec<char>)
    ensures
        bad@ == bad_chars(label@),
{
    let mut bad: Vec<char> = Vec::new();
    let mut i: usize = 0;
    while i < label.len()
        invariant
            i <= label.len(),
            bad@ == bad_chars(label@.take(i as int)),
        decreases label.len() - i,
    {
        let c = label[i];
        proof {
            assert(label@.take(i + 1).drop_last() =~= label@.take(i as int));
        }
        if !char_is_alphanumeric(c) {
            if !holds(&bad, c) {
                bad.push(c);
            }
        }
        i += 1;
    }
    proof {
        assert(label@.take(label.len() as int) =~= label@);
    }
    bad
}

fn check_label(label: &str) -> (r: Option<DomainError>)
    ensures
        crate::view::opt_view(r) == label_error(label@),
{
    let chars = chars_of(label);
    if chars.len() == 0 {
        return Some(DomainError::EmptyLabel);
    }
    if '0' <= chars[0] && chars[0] <= '9' {
        return Some(DomainError::StartsWithDigit { label: label.to_owned() });
    }
    let bad = collect_bad_chars(&chars);
    if bad.len() > 0 {
        return Some(DomainError::NotAsciiAlphanumeric { bad_chars: bad });
    }
    None
}

/// Checks that `domain_name` can serve as an app's domain.
pub fn check_domain_syntax(domain_name: &str) -> (r: Result<(), DomainError>)
    ensures
        crate::view::err_view(r) == check_domain(domain_name@),
{
    let chars = chars_of(domain_name);
    if chars.len() == 0 {
        return Err(DomainError::Empty);
    }
    if chars[0] == '.' || chars[chars.len() - 1] == '.' {
        return Err(DomainError::StartsOrEndsWithADot);
    }
    let labels = split_str(domain_name, '.');
    proof {
        crate::text::lemma_split_nonempty(domain_name@, '.');
    }
    let mut i: usize = 0;
    while i < labels.len()
        invariant
            i <= labels.len(),
            chars@ == domain_name@,
            chars.len() > 0,
            chars[0] != '.',
            chars[chars.len() - 1] != '.',
            labels.deep_view() == split(domain_name@, '.'),
            first_label_error(labels.deep_view().take(i as int)) is None,
        decreases labels.len() - i,
    {
        proof {
            assert(labels.deep_view().take(i + 1).drop_last() =~= labels.deep_view().take(
                i as int,
            ));
        }
        if let Some(e) = check_label(labels[i].as_str()) {
            proof {
                lemma_first_error_stays(labels.deep_view(), i + 1);
            }
            return Err(e);
        }
        i += 1;
    }
    proof {
        assert(labels.deep_view().take(labels.len() as int) =~= labels.deep_view());
    }
    let last = &labels[labels.len() - 1];
    if last.as_str().eq("kotlin") || last.as_str().eq("java") {
        return Err(DomainError::ReservedPackageName { package_name: last.clone() });
    }
    Ok(())
}

/// An error among the first `n` labels is the error of all the labels.
proof fn lemma_first_error_stays(labels: Seq<Seq<char>>, n: int)
    requires
        0 <= n <= labels.len(),
        first_label_error(labels.take(n)) is Some,
    ensures
        first_label_error(labels) == first_label_error(labels.take(n)),
    decreases labels.len() - n,
{
    if n == labels.len() {
        assert(labels.take(n) =~= labels);
    } else {
        assert(labels.take(n + 1).drop_last() =~= labels.take(n));
        lemma_first_error_stays(labels, n + 1);
    }
}

} // verus!
