//! Names in the cases that the build tools want them in.
//!
//! Where the words of a name begin and end is for the `heck` crate to say.

use heck::{CamelCase, SnakeCase};
use vstd::prelude::*;
use vstd::string::*;

verus! {

/// What `heck` makes of `s` in camel case: its words, each with a capital
/// first letter and the others small, with nothing between them.
pub uninterp spec fn camel_case(s: Seq<char>) -> Seq<char>;

/// What `heck` makes of `s` in snake case: its words in small letters
/// with `_` between them.
pub uninterp spec fn snake_case(s: Seq<char>) -> Seq<char>;

/// `s` in camel case (`heck::CamelCase::to_camel_case`). Claimed: the
/// result is `camel_case` of the characters of `s`.
#[verifier::external_body]
pub(crate) fn to_camel_case(s: &str) -> (r: String)
    ensures
        r@ == camel_case(s@),
{
    s.to_camel_case()
}

/// `s` in snake case (`heck::SnakeCase::to_snake_case`). Claimed: the
/// result is `snake_case` of the characters of `s`.
#[verifier::external_body]
pub(crate) fn to_snake_case(s: &str) -> (r: String)
    ensures
        r@ == snake_case(s@),
{
    s.to_snake_case()
}

} // verus!
