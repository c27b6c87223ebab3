//! Searching text with regular expressions.
//!
//! The search itself is the work of the `regex` crate. What it finds is
//! handed on as plain strings, so that the code that reads a tool's output
//! can be stated and checked on its own, whatever the search found.

use once_cell_regex::exports::regex::{Error as PatternCompileError, Regex, RegexBuilder};
use vstd::prelude::*;
use vstd::string::*;

verus! {

/// The error of the `regex` crate for a pattern that it cannot compile.
#[verifier::external_type_specification]
#[verifier::external_body]
pub struct ExRegexError(PatternCompileError);

/// The names of the groups of `pattern`, in the order of their opening
/// brackets, with the unnamed group of the whole match first; `None` where
/// `pattern` is no regular expression.
pub uninterp spec fn pattern_names(pattern: Seq<char>) -> Option<Seq<Option<Seq<char>>>>;

/// What each group of `pattern` holds in the leftmost match in `text`, the
/// whole match first; a group that took no part in the match holds
/// nothing. `None` where `pattern` matches nowhere in `text`.
pub uninterp spec fn first_match(pattern: Seq<char>, text: Seq<char>) -> Option<
    Seq<Option<Seq<char>>>,
>;

/// What each group of `pattern` holds in each of its matches in `text`,
/// from the left, none overlapping another, with `^` and `$` matching at
/// the ends of lines.
pub uninterp spec fn line_matches(pattern: Seq<char>, text: Seq<char>) -> Seq<
    Seq<Option<Seq<char>>>,
>;

/// Compiles `pattern` and lists its group names (`Regex::new`,
/// `Regex::capture_names`). Claimed: the result is `pattern_names`, and
/// compiling fails exactly where that is `None`.
#[verifier::external_body]
fn regex_names(pattern: &str) -> (r: Result<Vec<Option<String>>, PatternCompileError>)
    ensures
        match r {
            Ok(names) => pattern_names(pattern@) == Some(names.deep_view()),
            Err(_) => pattern_names(pattern@) is None,
        },
{
    Regex::new(pattern).map(
        |re| re.capture_names().map(|name| name.map(|name| name.to_owned())).collect(),
    )
}

/// Compiles `pattern` and searches `text` for its leftmost match
/// (`Regex::new`, `Regex::captures`, `Captures::iter`). Claimed: the groups
/// are `first_match`, and compiling fails exactly where `pattern_names` is
/// `None`.
#[verifier::external_body]
fn regex_captures(pattern: &str, text: &str) -> (r: Result<Option<Vec<Option<String>>>, PatternCompileError>)
    ensures
        match r {
            Ok(found) => pattern_names(pattern@) is Some && first_match(pattern@, text@)
                == found.deep_view(),
            Err(_) => pattern_names(pattern@) is None,
        },
{
    Regex::new(pattern).map(
        |re|
            re.captures(text).map(
                |caps| caps.iter().map(|group| group.map(|m| m.as_str().to_owned())).collect(),
            ),
    )
}

/// Compiles `pattern` in multi-line mode and collects all its matches in
/// `text` (`RegexBuilder::multi_line`, `Regex::captures_iter`). Claimed:
/// the matches are `line_matches`, and compiling fails exactly where
/// `pattern_names` is `None`.
#[verifier::external_body]
fn regex_line_captures(pattern: &str, text: &str) -> (r: Result<
    Vec<Vec<Option<String>>>,
    PatternCompileError,
>)
    ensures
        match r {
            Ok(found) => pattern_names(pattern@) is Some && line_matches(pattern@, text@)
                == found.deep_view(),
            Err(_) => pattern_names(pattern@) is None,
        },
{
    RegexBuilder::new(pattern).multi_line(true).build().map(
        |re|
            re.captures_iter(text).map(
                |caps| caps.iter().map(|group| group.map(|m| m.as_str().to_owned())).collect(),
            ).collect(),
    )
}

/// A pattern that is no regular expression.
#[derive(Debug)]
pub struct PatternInvalid {
    pub pattern: String,
}

/// The groups of one match, with the names that the pattern gives them.
#[derive(Debug)]
pub struct Captures {
    pub names: Vec<Option<String>>,
    pub groups: Vec<Option<String>>,
}

/// What the first group called `name` holds.
pub open spec fn named_group(
    names: Seq<Option<Seq<char>>>,
    groups: Seq<Option<Seq<char>>>,
    name: Seq<char>,
) -> Option<Seq<char>>
    decreases names.len(),
{
    if names.len() == 0 || groups.len() == 0 {
        None
    } else if names[0] == Some(name) {
        groups[0]
    } else {
        named_group(names.drop_first(), groups.drop_first(), name)
    }
}

impl Captures {
    /// What the group called `name` holds, as a sequence of characters.
    pub open spec fn named(&self, name: Seq<char>) -> Option<Seq<char>> {
        named_group(self.names.deep_view(), self.groups.deep_view(), name)
    }

    /// What group number `i` holds, as a sequence of characters.
    pub open spec fn numbered(&self, i: int) -> Option<Seq<char>> {
        if 0 <= i < self.groups.len() {
            self.groups.deep_view()[i]
        } else {
            None
        }
    }

    /// What the group called `name` holds, if there is such a group and it
    /// took part in the match.
    pub fn name(&self, name: &str) -> (r: Option<String>)
        ensures
            r.deep_view() == self.named(name@),
    {
        let mut i: usize = 0;
        proof {
            assert(self.names.deep_view().skip(0) =~= self.names.deep_view());
            assert(self.groups.deep_view().skip(0) =~= self.groups.deep_view());
        }
        while i < self.names.len() && i < self.groups.len()
            invariant
                i <= self.names.len(),
                i <= self.groups.len(),
                self.named(name@) == named_group(
                    self.names.deep_view().skip(i as int),
                    self.groups.deep_view().skip(i as int),
                    name@,
                ),
            decreases self.names.len() - i,
        {
            let ghost names = self.names.deep_view().skip(i as int);
            let ghost groups = self.groups.deep_view().skip(i as int);
            proof {
                assert(names.drop_first() =~= self.names.deep_view().skip(i + 1));
                assert(groups.drop_first() =~= self.groups.deep_view().skip(i + 1));
            }
            let hit = match &self.names[i] {
                Some(n) => n.as_str().eq(name),
                None => false,
            };
            if hit {
                return match &self.groups[i] {
                    Some(g) => Some(g.clone()),
                    None => None,
                };
            }
            i += 1;
        }
        None
    }

    /// What group number `i` holds, if there is such a group and it took
    /// part in the match.
    pub fn get(&self, i: usize) -> (r: Option<String>)
        ensures
            r.deep_view() == self.numbered(i as int),
    {
        if i < self.groups.len() {
            match &self.groups[i] {
                Some(g) => Some(g.clone()),
                None => None,
            }
        } else {
            None
        }
    }
}

/// Searches `text` for the leftmost match of `pattern`.
pub fn captures(pattern: &str, text: &str) -> (r: Result<Option<Captures>, PatternInvalid>)
    ensures
        match r {
            Ok(Some(caps)) => pattern_names(pattern@) == Some(caps.names.deep_view())
                && first_match(pattern@, text@) == Some(caps.groups.deep_view()),
            Ok(None) => pattern_names(pattern@) is Some && first_match(pattern@, text@) is None,
            Err(e) => pattern_names(pattern@) is None && e.pattern@ == pattern@,
        },
{
    let names = match regex_names(pattern) {
        Ok(names) => names,
        Err(_) => {
            return Err(PatternInvalid { pattern: pattern.to_owned() });
        },
    };
    match regex_captures(pattern, text) {
        Ok(Some(groups)) => Ok(Some(Captures { names, groups })),
        Ok(None) => Ok(None),
        Err(_) => Err(PatternInvalid { pattern: pattern.to_owned() }),
    }
}

/// Collects what each match of `pattern` in `text` holds, line ends
/// counting as ends.
pub fn line_captures(pattern: &str, text: &str) -> (r: Result<
    Vec<Vec<Option<String>>>,
    PatternInvalid,
>)
    ensures
        match r {
            Ok(found) => pattern_names(pattern@) is Some && line_matches(pattern@, text@)
                == found.deep_view(),
            Err(e) => pattern_names(pattern@) is None && e.pattern@ == pattern@,
        },
{
    match regex_line_captures(pattern, text) {
        Ok(found) => Ok(found),
        Err(_) => Err(PatternInvalid { pattern: pattern.to_owned() }),
    }
}

} // verus!
