//! The version of Windows.

use crate::os::Info;
use crate::util::pattern::{first_match, named_group, pattern_names};
use crate::util::rust_version::{run_and_search, RunAndSearchError, RunAndSearchErrorView};
use vstd::prelude::*;
use vstd::string::*;

verus! {

/// The pattern of the line that `ver` prints.
pub const VER_PATTERN: &'static str = r"\[Microsoft Windows (?P<version>.*)\]";

/// The version that `ver` printed in `output`, where the pattern finds
/// one.
pub open spec fn version_of(output: Seq<char>) -> Result<Seq<char>, RunAndSearchErrorView> {
    match (pattern_names(VER_PATTERN@), first_match(VER_PATTERN@, output)) {
        (None, _) => Err(RunAndSearchErrorView::PatternInvalid { pattern: VER_PATTERN@ }),
        (Some(names), Some(groups)) => match named_group(names, groups, "version"@) {
            Some(version) => Ok(version),
            None => Err(RunAndSearchErrorView::SearchFailed { command: "ver"@, output }),
        },
        (Some(_), None) => Err(RunAndSearchErrorView::SearchFailed { command: "ver"@, output }),
    }
}

/// Whether `r` is what is known of Windows from `output`.
pub open spec fn read_from(r: Result<Info, RunAndSearchError>, output: Seq<char>) -> bool {
    match version_of(output) {
        Ok(version) => r matches Ok(info) && info.name@ == "Windows"@ && info.version@ == version,
        Err(err) => r matches Err(e) && e@ == err,
    }
}

/// Reads the version of Windows from what `ver` printed.
pub fn check(output: &str) -> (r: Result<Info, RunAndSearchError>)
    ensures
        read_from(r, output@),
{
    let caps = match run_and_search("ver", VER_PATTERN, output) {
        Ok(caps) => caps,
        Err(e) => {
            return Err(e);
        },
    };
    match caps.name("version") {
        Some(version) => Ok(Info { name: "Windows".to_owned(), version }),
        None => Err(
            RunAndSearchError::SearchFailed {
                command: "ver".to_owned(),
                output: output.to_owned(),
            },
        ),
    }
}

} // verus!
