//! Bundle version numbers: a triple and any number of further components.

use crate::decimal::{decimal, parse_u32, parse_u32_str, u32_to_string, ParseIntError};
use crate::text::{debug_str, debug_text, split, split_str};
use crate::util::version::{
    parse_triple, triple_of_parts, VersionTriple, VersionTripleError, VersionTripleErrorView,
};
use crate::view::result_view;
use vstd::prelude::*;
use vstd::string::*;

verus! {

/// Why a text is no version number.
#[derive(Debug)]
pub enum VersionNumberError {
    VersionTripleInvalid(VersionTripleError),
    ExtraVersionInvalid { version: String, source: ParseIntError },
}

/// A `VersionNumberError` with its text as a sequence of characters.
pub enum VersionNumberErrorView {
    VersionTripleInvalid(VersionTripleErrorView),
    ExtraVersionInvalid { version: Seq<char>, source: ParseIntError },
}

impl View for VersionNumberError {
    type V = VersionNumberErrorView;

    open spec fn view(&self) -> VersionNumberErrorView {
        match self {
            VersionNumberError::VersionTripleInvalid(e) => {
                VersionNumberErrorView::VersionTripleInvalid(e@)
            },
            VersionNumberError::ExtraVersionInvalid { version, source } => {
                VersionNumberErrorView::ExtraVersionInvalid { version: version@, source: *source }
            },
        }
    }
}

impl VersionNumberErrorView {
    /// The sentence that describes the error.
    pub open spec fn message(self) -> Seq<char> {
        match self {
            VersionNumberErrorView::VersionTripleInvalid(_) => "Failed to parse version triple."@,
            VersionNumberErrorView::ExtraVersionInvalid { version, source } => {
                "Failed to parse extra version from "@ + debug_text(version) + ": "@
                    + source.message()
            },
        }
    }
}

impl VersionNumberError {
    pub fn to_string(&self) -> (r: String)
        ensures
            r@ == self@.message(),
    {
        match self {
            VersionNumberError::VersionTripleInvalid(_) => {
                "Failed to parse version triple.".to_owned()
            },
            VersionNumberError::ExtraVersionInvalid { version, source } => {
                "Failed to parse extra version from ".to_owned().concat(
                    debug_str(version.as_str()).as_str(),
                ).concat(": ").concat(source.to_string().as_str())
            },
        }
    }
}

/// A version triple, with further numbers behind it where there are any.
#[derive(Clone, Debug, PartialEq, Eq, PartialOrd, Ord)]
pub struct VersionNumber {
    pub triple: VersionTriple,
    pub extra: Option<Vec<u32>>,
}

/// A `VersionNumber` with its further numbers as a sequence.
pub struct VersionNumberView {
    pub triple: VersionTriple,
    pub extra: Option<Seq<u32>>,
}

impl View for VersionNumber {
    type V = VersionNumberView;

    open spec fn view(&self) -> VersionNumberView {
        VersionNumberView {
            triple: self.triple,
            extra: match self.extra {
                Some(v) => Some(v@),
                None => None,
            },
        }
    }
}

/// The numbers that `parts` spell, or the error of the first part that
/// spells none.
pub open spec fn parse_extras(parts: Seq<Seq<char>>) -> Result<Seq<u32>, ParseIntError>
    decreases parts.len(),
{
    if parts.len() == 0 {
        Ok(Seq::<u32>::empty())
    } else {
        match parse_extras(parts.drop_last()) {
            Err(e) => Err(e),
            Ok(front) => match parse_u32(parts.last()) {
                Err(e) => Err(e),
                Ok(n) => Ok(front.push(n)),
            },
        }
    }
}

/// The version number that `v` spells: up to three components make a
/// triple alone; of four or more, the first three make the triple and the
/// others follow it.
pub open spec fn parse_number(v: Seq<char>) -> Result<VersionNumberView, VersionNumberErrorView> {
    let parts = split(v, '.');
    if parts.len() <= 3 {
        match parse_triple(v) {
            Ok(triple) => Ok(VersionNumberView { triple, extra: None }),
            Err(e) => Err(VersionNumberErrorView::VersionTripleInvalid(e)),
        }
    } else {
        match triple_of_parts(parts, v) {
            Err(e) => Err(VersionNumberErrorView::VersionTripleInvalid(e)),
            Ok(triple) => match parse_extras(parts.skip(3)) {
                Ok(extra) => Ok(VersionNumberView { triple, extra: Some(extra) }),
                Err(source) => Err(
                    VersionNumberErrorView::ExtraVersionInvalid { version: v, source },
                ),
            },
        }
    }
}

/// The text of the further numbers, each behind a dot.
pub open spec fn extras_text(extra: Seq<u32>) -> Seq<char>
    decreases extra.len(),
{
    if extra.len() == 0 {
        Seq::<char>::empty()
    } else {
        extras_text(extra.drop_last()) + seq!['.'] + decimal(extra.last() as nat)
    }
}

impl VersionNumberView {
    /// The triple, then each further number behind a dot.
    pub open spec fn text(self) -> Seq<char> {
        match self.extra {
            Some(extra) => self.triple.text() + extras_text(extra),
            None => self.triple.text(),
        }
    }
}

impl VersionNumber {
    pub fn new_from_triple(triple: VersionTriple) -> (r: Self)
        ensures
            r@ == (VersionNumberView { triple, extra: None }),
    {
        Self { triple, extra: None }
    }

    /// The version `other` with `number` as one more component at its end.
    pub fn from_other_and_number(other: VersionNumber, number: u32) -> (r: Self)
        ensures
            r@.triple == other@.triple,
            r@.extra == Some(
                match other@.extra {
                    Some(extra) => extra.push(number),
                    None => seq![number],
                },
            ),
    {
        let mut extra = match other.extra {
            Some(extra) => extra,
            None => Vec::new(),
        };
        extra.push(number);
        Self { triple: other.triple, extra: Some(extra) }
    }

    pub fn new(triple: VersionTriple, extra: Option<Vec<u32>>) -> (r: Self)
        ensures
            r.triple == triple,
            r.extra == extra,
    {
        Self { triple, extra }
    }

    pub fn to_string(&self) -> (r: String)
        ensures
            r@ == self@.text(),
    {
        let mut r = self.triple.to_string();
        if let Some(extra) = &self.extra {
            let mut i: usize = 0;
            proof {
                reveal_strlit(".");
            }
            while i < extra.len()
                invariant
                    i <= extra.len(),
                    "."@ == seq!['.'],
                    r@ == self.triple.text() + extras_text(extra@.take(i as int)),
                decreases extra.len() - i,
            {
                proof {
                    assert(extra@.take(i + 1).drop_last() =~= extra@.take(i as int));
                }
                r.append(".");
                r.append(u32_to_string(extra[i]).as_str());
                i += 1;
            }
            proof {
                assert(extra@.take(extra.len() as int) =~= extra@);
            }
        }
        r
    }

    /// Reads a version number from text such as `1.2.3` or `1.2.3.4`.
    pub fn from_str(v: &str) -> (r: Result<Self, VersionNumberError>)
        ensures
            result_view(r) == parse_number(v@),
    {
        let parts = split_str(v, '.');
        if parts.len() <= 3 {
            return match VersionTriple::from_str(v) {
                Ok(triple) => Ok(Self { triple, extra: None }),
                Err(e) => Err(VersionNumberError::VersionTripleInvalid(e)),
            };
        }
        let triple = match VersionTriple::from_split(&parts, v) {
            Ok(triple) => triple,
            Err(e) => {
                return Err(VersionNumberError::VersionTripleInvalid(e));
            },
        };
        let mut extra: Vec<u32> = Vec::new();
        let mut i: usize = 3;
        let ghost rest = parts.deep_view().skip(3);
        while i < parts.len()
            invariant
                3 <= i <= parts.len(),
                parts.len() > 3,
                parts.deep_view() == split(v@, '.'),
                triple_of_parts(parts.deep_view(), v@) == Ok::<
                    VersionTriple,
                    VersionTripleErrorView,
                >(triple),
                rest == parts.deep_view().skip(3),
                parse_extras(rest.take(i - 3)) == Ok::<Seq<u32>, ParseIntError>(extra@),
            ensures
                i == parts.len(),
            decreases parts.len() - i,
        {
            proof {
                assert(rest.take(i - 2).drop_last() =~= rest.take(i - 3));
            }
            match parse_u32_str(parts[i].as_str()) {
                Ok(n) => {
                    extra.push(n);
                },
                Err(source) => {
                    proof {
                        lemma_extras_error(rest, i - 2);
                    }
                    return Err(
                        VersionNumberError::ExtraVersionInvalid { version: v.to_owned(), source },
                    );
                },
            }
            i += 1;
        }
        proof {
            assert(rest.take(parts.len() - 3) =~= rest);
        }
        Ok(Self { triple, extra: Some(extra) })
    }
}

/// An error among the first `n` parts is the error of all the parts.
proof fn lemma_extras_error(parts: Seq<Seq<char>>, n: int)
    requires
        0 <= n <= parts.len(),
        parse_extras(parts.take(n)) is Err,
    ensures
        parse_extras(parts) == parse_extras(parts.take(n)),
    decreases parts.len() - n,
{
    if n == parts.len() {
        assert(parts.take(n) =~= parts);
    } else {
        assert(parts.take(n + 1).drop_last() =~= parts.take(n));
        lemma_extras_error(parts, n + 1);
    }
}

} // verus!
