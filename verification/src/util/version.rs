//! Version numbers of two and three components, as tools print them.

use crate::decimal::{decimal, parse_u32, parse_u32_str, u32_to_string, ParseIntError};
use crate::text::{debug_str, debug_text, split, split_str};
use crate::view::err_view;
use vstd::prelude::*;
use vstd::string::*;

verus! {

/// Why a text is no version triple.
#[derive(Debug)]
pub enum VersionTripleError {
    MajorInvalid { version: String, source: ParseIntError },
    MinorInvalid { version: String, source: ParseIntError },
    PatchInvalid { version: String, source: ParseIntError },
    VersionStringInvalid { version: String },
}

/// A `VersionTripleError` with its text as a sequence of characters.
pub enum VersionTripleErrorView {
    MajorInvalid { version: Seq<char>, source: ParseIntError },
    MinorInvalid { version: Seq<char>, source: ParseIntError },
    PatchInvalid { version: Seq<char>, source: ParseIntError },
    VersionStringInvalid { version: Seq<char> },
}

impl View for VersionTripleError {
    type V = VersionTripleErrorView;

    open spec fn view(&self) -> VersionTripleErrorView {
        match self {
            VersionTripleError::MajorInvalid { version, source } => {
                VersionTripleErrorView::MajorInvalid { version: version@, source: *source }
            },
            VersionTripleError::MinorInvalid { version, source } => {
                VersionTripleErrorView::MinorInvalid { version: version@, source: *source }
            },
            VersionTripleError::PatchInvalid { version, source } => {
                VersionTripleErrorView::PatchInvalid { version: version@, source: *source }
            },
            VersionTripleError::VersionStringInvalid { version } => {
                VersionTripleErrorView::VersionStringInvalid { version: version@ }
            },
        }
    }
}

impl VersionTripleErrorView {
    /// The sentence that describes the error.
    pub open spec fn message(self) -> Seq<char> {
        match self {
            VersionTripleErrorView::MajorInvalid { version, source } => {
                "Failed to parse major version from "@ + debug_text(version) + ": "@
                    + source.message()
            },
            VersionTripleErrorView::MinorInvalid { version, source } => {
                "Failed to parse minor version from "@ + debug_text(version) + ": "@
                    + source.message()
            },
            VersionTripleErrorView::PatchInvalid { version, source } => {
                "Failed to parse patch version from "@ + debug_text(version) + ": "@
                    + source.message()
            },
            VersionTripleErrorView::VersionStringInvalid { version } => {
                "Failed to parse version string "@ + debug_text(version)
                    + ": string must be in format <major>[.minor][.patch]"@
            },
        }
    }
}

impl VersionTripleError {
    pub fn to_string(&self) -> (r: String)
        ensures
            r@ == self@.message(),
    {
        match self {
            VersionTripleError::MajorInvalid { version, source } => {
                "Failed to parse major version from ".to_owned().concat(
                    debug_str(version.as_str()).as_str(),
                ).concat(": ").concat(source.to_string().as_str())
            },
            VersionTripleError::MinorInvalid { version, source } => {
                "Failed to parse minor version from ".to_owned().concat(
                    debug_str(version.as_str()).as_str(),
                ).concat(": ").concat(source.to_string().as_str())
            },
            VersionTripleError::PatchInvalid { version, source } => {
                "Failed to parse patch version from ".to_owned().concat(
                    debug_str(version.as_str()).as_str(),
                ).concat(": ").concat(source.to_string().as_str())
            },
            VersionTripleError::VersionStringInvalid { version } => {
                "Failed to parse version string ".to_owned().concat(
                    debug_str(version.as_str()).as_str(),
                ).concat(": string must be in format <major>[.minor][.patch]")
            },
        }
    }
}

/// A version of three numbers, ordered by major, then minor, then patch.
#[derive(Clone, Copy, Debug, PartialEq, Eq, Structural, PartialOrd, Ord)]
pub struct VersionTriple {
    pub major: u32,
    pub minor: u32,
    pub patch: u32,
}

/// The triple that the first three of `parts` spell; the first part that
/// is no number decides the error. `version` is the text they came from.
pub open spec fn triple_of_parts(parts: Seq<Seq<char>>, version: Seq<char>) -> Result<
    VersionTriple,
    VersionTripleErrorView,
> {
    match parse_u32(parts[0]) {
        Err(source) => Err(VersionTripleErrorView::MajorInvalid { version, source }),
        Ok(major) => match parse_u32(parts[1]) {
            Err(source) => Err(VersionTripleErrorView::MinorInvalid { version, source }),
            Ok(minor) => match parse_u32(parts[2]) {
                Err(source) => Err(VersionTripleErrorView::PatchInvalid { version, source }),
                Ok(patch) => Ok(VersionTriple { major, minor, patch }),
            },
        },
    }
}

/// Whether a triple can be read from `parts` or an error found in them:
/// there are three parts, or one of those that are there is no number.
pub open spec fn readable(parts: Seq<Seq<char>>) -> bool {
    ||| parts.len() >= 3
    ||| parts.len() >= 1 && parse_u32(parts[0]) is Err
    ||| parts.len() >= 2 && parse_u32(parts[1]) is Err
}

/// The triple that `v` spells: one to three numbers with dots between
/// them, the missing ones counted as zero.
pub open spec fn parse_triple(v: Seq<char>) -> Result<VersionTriple, VersionTripleErrorView> {
    let parts = split(v, '.');
    let zero = seq!['0'];
    if parts.len() == 1 {
        triple_of_parts(seq![parts[0], zero, zero], v)
    } else if parts.len() == 2 {
        triple_of_parts(seq![parts[0], parts[1], zero], v)
    } else if parts.len() == 3 {
        triple_of_parts(parts, v)
    } else {
        Err(VersionTripleErrorView::VersionStringInvalid { version: v })
    }
}

impl VersionTriple {
    pub fn new(major: u32, minor: u32, patch: u32) -> (r: Self)
        ensures
            r == (VersionTriple { major, minor, patch }),
    {
        Self { major, minor, patch }
    }

    /// `self` comes before `other` or equals it.
    pub open spec fn not_after(self, other: Self) -> bool {
        self.major < other.major || (self.major == other.major && (self.minor < other.minor || (
        self.minor == other.minor && self.patch <= other.patch)))
    }

    /// Whether `self` is at most `other`.
    pub fn at_most(&self, other: &Self) -> (r: bool)
        ensures
            r == self.not_after(*other),
    {
        self.major < other.major || (self.major == other.major && (self.minor < other.minor || (
        self.minor == other.minor && self.patch <= other.patch)))
    }

    /// Whether `self` is at least `other`.
    pub fn at_least(&self, other: &Self) -> (r: bool)
        ensures
            r == other.not_after(*self),
    {
        other.at_most(self)
    }

    /// The three numbers with dots between them.
    pub open spec fn text(self) -> Seq<char> {
        decimal(self.major as nat) + seq!['.'] + decimal(self.minor as nat) + seq!['.'] + decimal(
            self.patch as nat,
        )
    }

    pub fn to_string(&self) -> (r: String)
        ensures
            r@ == self.text(),
    {
        proof {
            reveal_strlit(".");
        }
        u32_to_string(self.major).concat(".").concat(u32_to_string(self.minor).as_str()).concat(
            ".",
        ).concat(u32_to_string(self.patch).as_str())
    }

    /// Reads the triple from the first three of `parts`, the pieces of
    /// `version`. The parts are read in order, up to the first that is no
    /// number; a part that is read has to be there.
    pub fn from_split(parts: &Vec<String>, version: &str) -> (r: Result<Self, VersionTripleError>)
        requires
            readable(parts.deep_view()),
        ensures
            err_view(r) == triple_of_parts(parts.deep_view(), version@),
    {
        let major = match parse_u32_str(parts[0].as_str()) {
            Ok(n) => n,
            Err(source) => {
                return Err(
                    VersionTripleError::MajorInvalid { version: version.to_owned(), source },
                );
            },
        };
        let minor = match parse_u32_str(parts[1].as_str()) {
            Ok(n) => n,
            Err(source) => {
                return Err(
                    VersionTripleError::MinorInvalid { version: version.to_owned(), source },
                );
            },
        };
        let patch = match parse_u32_str(parts[2].as_str()) {
            Ok(n) => n,
            Err(source) => {
                return Err(
                    VersionTripleError::PatchInvalid { version: version.to_owned(), source },
                );
            },
        };
        Ok(VersionTriple { major, minor, patch })
    }

    /// Reads a triple from text such as `1`, `1.45` or `1.45.2`.
    pub fn from_str(v: &str) -> (r: Result<Self, VersionTripleError>)
        ensures
            err_view(r) == parse_triple(v@),
    {
        let mut parts = split_str(v, '.');
        let count = parts.len();
        if count > 3 || count == 0 {
            proof {
                crate::text::lemma_split_nonempty(v@, '.');
            }
            return Err(VersionTripleError::VersionStringInvalid { version: v.to_owned() });
        }
        proof {
            reveal_strlit("0");
            assert("0"@ =~= seq!['0']);
        }
        if count < 2 {
            parts.push("0".to_owned());
        }
        if count < 3 {
            parts.push("0".to_owned());
        }
        proof {
            let zero = seq!['0'];
            if count == 1 {
            } else if count == 2 {
            } else {
            }
        }
        Self::from_split(&parts, v)
    }
}


/// The digits of a number hold no dot.
pub proof fn lemma_decimal_dot_free(n: nat)
    ensures
        !decimal(n).contains('.'),
{
    crate::decimal::lemma_decimal_digits(n);
    if decimal(n).contains('.') {
        let i = choose|i: int| 0 <= i < decimal(n).len() && decimal(n)[i] == '.';
    }
}

/// A triple that is written and read again is the same triple.
pub proof fn lemma_triple_round_trip(t: VersionTriple)
    ensures
        parse_triple(t.text()) == Ok::<VersionTriple, VersionTripleErrorView>(t),
{
    let a = decimal(t.major as nat);
    let b = decimal(t.minor as nat);
    let c = decimal(t.patch as nat);
    lemma_decimal_dot_free(t.major as nat);
    lemma_decimal_dot_free(t.minor as nat);
    lemma_decimal_dot_free(t.patch as nat);
    crate::text::lemma_split_free(a, '.');
    crate::text::lemma_split_append(a, b, '.');
    crate::text::lemma_split_append(a + seq!['.'] + b, c, '.');
    crate::decimal::lemma_parse_decimal(t.major);
    crate::decimal::lemma_parse_decimal(t.minor);
    crate::decimal::lemma_parse_decimal(t.patch);
}

/// Why a text is no version double.
#[derive(Debug)]
pub enum VersionDoubleError {
    MajorInvalid { version: String, source: ParseIntError },
    MinorInvalid { version: String, source: ParseIntError },
    VersionStringInvalid { version: String },
}

/// A `VersionDoubleError` with its text as a sequence of characters.
pub enum VersionDoubleErrorView {
    MajorInvalid { version: Seq<char>, source: ParseIntError },
    MinorInvalid { version: Seq<char>, source: ParseIntError },
    VersionStringInvalid { version: Seq<char> },
}

impl View for VersionDoubleError {
    type V = VersionDoubleErrorView;

    open spec fn view(&self) -> VersionDoubleErrorView {
        match self {
            VersionDoubleError::MajorInvalid { version, source } => {
                VersionDoubleErrorView::MajorInvalid { version: version@, source: *source }
            },
            VersionDoubleError::MinorInvalid { version, source } => {
                VersionDoubleErrorView::MinorInvalid { version: version@, source: *source }
            },
            VersionDoubleError::VersionStringInvalid { version } => {
                VersionDoubleErrorView::VersionStringInvalid { version: version@ }
            },
        }
    }
}

impl VersionDoubleErrorView {
    /// The sentence that describes the error.
    pub open spec fn message(self) -> Seq<char> {
        match self {
            VersionDoubleErrorView::MajorInvalid { version, source } => {
                "Failed to parse major version from "@ + debug_text(version) + ": "@
                    + source.message()
            },
            VersionDoubleErrorView::MinorInvalid { version, source } => {
                "Failed to parse minor version from "@ + debug_text(version) + ": "@
                    + source.message()
            },
            VersionDoubleErrorView::VersionStringInvalid { version } => {
                "Failed to parse version string "@ + debug_text(version)
                    + ": string must be in format <major>[.minor]"@
            },
        }
    }
}

impl VersionDoubleError {
    pub fn to_string(&self) -> (r: String)
        ensures
            r@ == self@.message(),
    {
        match self {
            VersionDoubleError::MajorInvalid { version, source } => {
                "Failed to parse major version from ".to_owned().concat(
                    debug_str(version.as_str()).as_str(),
                ).concat(": ").concat(source.to_string().as_str())
            },
            VersionDoubleError::MinorInvalid { version, source } => {
                "Failed to parse minor version from ".to_owned().concat(
                    debug_str(version.as_str()).as_str(),
                ).concat(": ").concat(source.to_string().as_str())
            },
            VersionDoubleError::VersionStringInvalid { version } => {
                "Failed to parse version string ".to_owned().concat(
                    debug_str(version.as_str()).as_str(),
                ).concat(": string must be in format <major>[.minor]")
            },
        }
    }
}

/// A version of two numbers, ordered by major, then minor.
#[derive(Clone, Copy, Debug, PartialEq, Eq, Structural, PartialOrd, Ord)]
pub struct VersionDouble {
    pub major: u32,
    pub minor: u32,
}

/// The double that `v` spells: one or two numbers with a dot between
/// them, a missing minor counted as zero.
pub open spec fn parse_double(v: Seq<char>) -> Result<VersionDouble, VersionDoubleErrorView> {
    let parts = split(v, '.');
    if parts.len() == 1 || parts.len() == 2 {
        match parse_u32(parts[0]) {
            Err(source) => Err(VersionDoubleErrorView::MajorInvalid { version: v, source }),
            Ok(major) => if parts.len() == 1 {
                Ok(VersionDouble { major, minor: 0 })
            } else {
                match parse_u32(parts[1]) {
                    Err(source) => Err(
                        VersionDoubleErrorView::MinorInvalid { version: v, source },
                    ),
                    Ok(minor) => Ok(VersionDouble { major, minor }),
                }
            },
        }
    } else {
        Err(VersionDoubleErrorView::VersionStringInvalid { version: v })
    }
}

impl VersionDouble {
    pub fn new(major: u32, minor: u32) -> (r: Self)
        ensures
            r == (VersionDouble { major, minor }),
    {
        Self { major, minor }
    }

    /// `self` comes before `other` or equals it.
    pub open spec fn not_after(self, other: Self) -> bool {
        self.major < other.major || (self.major == other.major && self.minor <= other.minor)
    }

    /// Whether `self` is at least `other`.
    pub fn at_least(&self, other: &Self) -> (r: bool)
        ensures
            r == other.not_after(*self),
    {
        other.major < self.major || (other.major == self.major && other.minor <= self.minor)
    }

    /// The two numbers with a dot between them.
    pub open spec fn text(self) -> Seq<char> {
        decimal(self.major as nat) + seq!['.'] + decimal(self.minor as nat)
    }

    pub fn to_string(&self) -> (r: String)
        ensures
            r@ == self.text(),
    {
        proof {
            reveal_strlit(".");
        }
        u32_to_string(self.major).concat(".").concat(u32_to_string(self.minor).as_str())
    }

    /// Reads a double from text such as `11` or `11.3`.
    pub fn from_str(v: &str) -> (r: Result<Self, VersionDoubleError>)
        ensures
            err_view(r) == parse_double(v@),
    {
        let parts = split_str(v, '.');
        let count = parts.len();
        if count != 1 && count != 2 {
            return Err(VersionDoubleError::VersionStringInvalid { version: v.to_owned() });
        }
        let major = match parse_u32_str(parts[0].as_str()) {
            Ok(n) => n,
            Err(source) => {
                return Err(
                    VersionDoubleError::MajorInvalid { version: v.to_owned(), source },
                );
            },
        };
        if count == 1 {
            return Ok(VersionDouble { major, minor: 0 });
        }
        match parse_u32_str(parts[1].as_str()) {
            Ok(minor) => Ok(VersionDouble { major, minor }),
            Err(source) => Err(
                VersionDoubleError::MinorInvalid { version: v.to_owned(), source },
            ),
        }
    }
}

/// A double that is written and read again is the same double.
pub proof fn lemma_double_round_trip(d: VersionDouble)
    ensures
        parse_double(d.text()) == Ok::<VersionDouble, VersionDoubleErrorView>(d),
{
    let a = decimal(d.major as nat);
    let b = decimal(d.minor as nat);
    lemma_decimal_dot_free(d.major as nat);
    lemma_decimal_dot_free(d.minor as nat);
    crate::text::lemma_split_free(a, '.');
    crate::text::lemma_split_append(a, b, '.');
    crate::decimal::lemma_parse_decimal(d.major);
    crate::decimal::lemma_parse_decimal(d.minor);
}

} // verus!
