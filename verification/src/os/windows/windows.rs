//! What the Windows registry is asked for.

use vstd::prelude::*;
use vstd::string::*;

verus! {

/// The kinds of file that an editor is looked up for.
#[derive(Clone, Copy, Debug, PartialEq, Eq, Structural)]
pub enum FileType {
    Rust,
    Text,
}

/// Why the registry gave no answer.
#[derive(Clone, Copy, Debug, PartialEq, Eq, Structural)]
pub enum WindowsError {
    BufferTooSmall,
    False,
    Unknown,
    UndefinedType,
}

/// The file extension under which the registry knows the editor for
/// files of type `t`.
pub fn detect_type_editor(t: FileType) -> (r: &'static str)
    ensures
        r@ == match t {
            FileType::Rust => ".rs"@,
            FileType::Text => ".txt"@,
        },
{
    match t {
        FileType::Rust => ".rs",
        FileType::Text => ".txt",
    }
}

} // verus!
