//! What the user's answers mean.
//!
//! Asking is for the program. What an answer means, and whether the
//! question must be asked again, is decided here.

use crate::decimal::{parse_u32, parse_u32_str};
use vstd::prelude::*;
use vstd::string::*;

verus! {

#[derive(Clone, Copy, Debug, PartialEq, Eq, Structural)]
pub enum YesOrNo {
    No,
    Yes,
}

impl YesOrNo {
    pub fn yes(self) -> (r: bool)
        ensures
            r == (self == YesOrNo::Yes),
    {
        match self {
            YesOrNo::Yes => true,
            YesOrNo::No => false,
        }
    }

    pub fn no(self) -> (r: bool)
        ensures
            r == (self == YesOrNo::No),
    {
        !self.yes()
    }
}

/// What the user is shown when asked: the message, a colon and a blank.
pub fn minimal_message(msg: &str) -> (r: String)
    ensures
        r@ == msg@ + ": "@,
{
    msg.to_owned().concat(": ")
}

/// The answer that a line typed by the user gives: the line without the
/// white space around it.
pub fn minimal(input: &str) -> (r: String)
    ensures
        r@ == crate::text::trimmed(input@),
{
    crate::text::trim(input)
}

/// The text of a prompt: the message, with the default answer in
/// brackets behind it where there is one.
pub fn default_message(msg: &str, default: Option<&str>) -> (r: String)
    ensures
        r@ == match default {
            Some(d) => msg@ + " ("@ + d@ + ")"@,
            None => msg@,
        },
{
    match default {
        Some(d) => msg.to_owned().concat(" (").concat(d).concat(")"),
        None => msg.to_owned(),
    }
}

/// The answer to a prompt with a default: `fallback` where the user
/// typed nothing and there is one, else what the user typed.
pub fn default(response: String, fallback: Option<&str>) -> (r: String)
    ensures
        r@ == match fallback {
            Some(d) => if response@.len() == 0 {
                d@
            } else {
                response@
            },
            None => response@,
        },
{
    match fallback {
        Some(d) => if response.as_str().is_empty() {
            d.to_owned()
        } else {
            response
        },
        None => response,
    }
}

/// The hint behind a question that wants yes or no: the capital letter
/// is the default.
pub fn yes_no_hint(default: Option<YesOrNo>) -> (r: &'static str)
    ensures
        r@ == match default {
            Some(YesOrNo::Yes) => "[Y/n]"@,
            Some(YesOrNo::No) => "[y/N]"@,
            None => "[y/n]"@,
        },
{
    match default {
        Some(YesOrNo::Yes) => "[Y/n]",
        Some(YesOrNo::No) => "[y/N]",
        None => "[y/n]",
    }
}

/// Whether `response` is the letter `small` or its capital.
pub open spec fn is_letter(response: Seq<char>, small: char, capital: char) -> bool {
    response.len() == 1 && (response[0] == small || response[0] == capital)
}

/// What an answer to a question that wants yes or no means: `y` and `n`
/// in either case stand for themselves, nothing for the default, and
/// anything else for no answer at all.
pub open spec fn yes_no_of(response: Seq<char>, default: Option<YesOrNo>) -> Option<YesOrNo> {
    if is_letter(response, 'y', 'Y') {
        Some(YesOrNo::Yes)
    } else if is_letter(response, 'n', 'N') {
        Some(YesOrNo::No)
    } else if response.len() == 0 {
        default
    } else {
        None
    }
}

/// Whether the user is told off: the answer was neither a letter that
/// counts nor nothing.
pub open spec fn silly(response: Seq<char>) -> bool {
    !is_letter(response, 'y', 'Y') && !is_letter(response, 'n', 'N') && response.len() != 0
}

/// What the answer `response` means, and whether the user is told off
/// for it.
pub fn yes_no(response: &str, default: Option<YesOrNo>) -> (r: (Option<YesOrNo>, bool))
    ensures
        r.0 == yes_no_of(response@, default),
        r.1 == silly(response@),
{
    let chars = crate::text::chars_of(response);
    if chars.len() == 1 && (chars[0] == 'y' || chars[0] == 'Y') {
        (Some(YesOrNo::Yes), false)
    } else if chars.len() == 1 && (chars[0] == 'n' || chars[0] == 'N') {
        (Some(YesOrNo::No), false)
    } else if chars.len() == 0 {
        (default, false)
    } else {
        (None, true)
    }
}

/// Why an answer picks nothing from a list.
#[derive(Clone, Copy, Debug, PartialEq, Eq, Structural)]
pub enum ListRetry {
    /// The answer is empty.
    Empty,
    /// The answer is no number.
    NotANumber,
    /// The list is not that long.
    TooHigh,
}

impl ListRetry {
    /// What the user is told before the question is asked again.
    pub fn message(self) -> (r: &'static str)
        ensures
            r@ == match self {
                ListRetry::Empty => "Not to be pushy, but you need to pick a device."@,
                ListRetry::NotANumber => "Hey, that wasn't a number! You're silly."@,
                ListRetry::TooHigh => "There's no device with an index that high."@,
            },
    {
        match self {
            ListRetry::Empty => "Not to be pushy, but you need to pick a device.",
            ListRetry::NotANumber => "Hey, that wasn't a number! You're silly.",
            ListRetry::TooHigh => "There's no device with an index that high.",
        }
    }
}

/// The answer that a list offers by itself: the number of its only
/// choice.
pub fn list_default(choice_count: usize) -> (r: Option<&'static str>)
    ensures
        match r {
            Some(d) => choice_count == 1 && d@ == "0"@,
            None => choice_count != 1,
        },
{
    if choice_count == 1 {
        Some("0")
    } else {
        None
    }
}

/// The choice that an answer picks from a list of `choice_count`
/// entries, or why it picks none.
pub open spec fn choice_of(response: Seq<char>, choice_count: usize) -> Result<usize, ListRetry> {
    if response.len() == 0 {
        Err(ListRetry::Empty)
    } else {
        match parse_u32(response) {
            Err(_) => Err(ListRetry::NotANumber),
            Ok(index) => if index < choice_count {
                Ok(index as usize)
            } else {
                Err(ListRetry::TooHigh)
            },
        }
    }
}

/// The choice that `response` picks from a list of `choice_count`
/// entries.
pub fn list(response: &str, choice_count: usize) -> (r: Result<usize, ListRetry>)
    ensures
        r == choice_of(response@, choice_count),
{
    if response.is_empty() {
        return Err(ListRetry::Empty);
    }
    match parse_u32_str(response) {
        Err(_) => Err(ListRetry::NotANumber),
        Ok(index) => if (index as usize) < choice_count {
            Ok(index as usize)
        } else {
            Err(ListRetry::TooHigh)
        },
    }
}

/// What a list shows where it has no entry.
pub fn list_display_only(choice_count: usize) -> (r: Option<&'static str>)
    ensures
        match r {
            Some(text) => choice_count == 0 && text@ == "  -- none --"@,
            None => choice_count > 0,
        },
{
    if choice_count > 0 {
        None
    } else {
        Some("  -- none --")
    }
}

} // verus!
