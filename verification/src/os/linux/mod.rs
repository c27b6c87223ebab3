//! Opening files on Linux, with the program that the desktop names.

pub mod xdg;

use crate::util::command::{Command, CommandView};
use crate::util::path::{PartView, PathParts};
use vstd::prelude::*;
use vstd::string::*;

verus! {

/// Why no editor could be found.
#[derive(Clone, Copy, Debug, PartialEq, Eq, Structural)]
pub enum DetectEditorError {
    NoDefaultEditorSet,
    FreeDesktopEntryNotFound,
    FreeDesktopEntryParseError,
}

impl DetectEditorError {
    /// The sentence that describes the error.
    pub open spec fn message(self) -> Seq<char> {
        match self {
            DetectEditorError::NoDefaultEditorSet => {
                "No default editor is set: xdg-mime queries for \"text/rust\" and \"text/plain\" both failed"@
            },
            DetectEditorError::FreeDesktopEntryNotFound => {
                "Entry Not Found: xdg-mime returned an entry name that could not be found"@
            },
            DetectEditorError::FreeDesktopEntryParseError => {
                "Entry Parse Error: xdg-mime returned an entry that could not be parsed"@
            },
        }
    }

    pub fn to_string(&self) -> (r: String)
        ensures
            r@ == self.message(),
    {
        match self {
            DetectEditorError::NoDefaultEditorSet => {
                "No default editor is set: xdg-mime queries for \"text/rust\" and \"text/plain\" both failed".to_owned()
            },
            DetectEditorError::FreeDesktopEntryNotFound => {
                "Entry Not Found: xdg-mime returned an entry name that could not be found".to_owned()
            },
            DetectEditorError::FreeDesktopEntryParseError => {
                "Entry Parse Error: xdg-mime returned an entry that could not be parsed".to_owned()
            },
        }
    }
}

/// Why a file could not be opened.
#[derive(Debug)]
pub enum OpenFileError {
    /// The program could not be started; the text says why.
    LaunchFailed(String),
    CommandParsingFailed,
}

impl OpenFileError {
    /// The sentence that describes the error.
    pub open spec fn message(&self) -> Seq<char> {
        match self {
            OpenFileError::LaunchFailed(e) => "Launch failed: "@ + e@,
            OpenFileError::CommandParsingFailed => "Command parsing failed"@,
        }
    }

    pub fn to_string(&self) -> (r: String)
        ensures
            r@ == self.message(),
    {
        match self {
            OpenFileError::LaunchFailed(e) => "Launch failed: ".to_owned().concat(e.as_str()),
            OpenFileError::CommandParsingFailed => "Command parsing failed".to_owned(),
        }
    }
}

/// A program, as a desktop entry describes it.
#[derive(Debug)]
pub struct Application {
    pub exec_command: String,
    pub icon: Option<String>,
    pub xdg_entry_path: PathParts,
}

/// What the search for a desktop entry came to.
pub enum EntrySearch {
    /// No directory holds the entry.
    NotFound,
    /// The entry was found, and none that was found could be read.
    Unreadable,
    /// The first entry that could be read.
    Found(Application),
}

impl Application {
    /// The editor that the desktop names. `entry` is the name of the
    /// desktop entry for Rust sources, or else for plain text, if
    /// `xdg-mime` knew one; `search` is what looking for that entry came
    /// to.
    pub fn detect_editor(entry: Option<String>, search: EntrySearch) -> (r: Result<
        Self,
        DetectEditorError,
    >)
        ensures
            match entry {
                None => r == Err::<Self, DetectEditorError>(DetectEditorError::NoDefaultEditorSet),
                Some(_) => match search {
                    EntrySearch::NotFound => r == Err::<Self, DetectEditorError>(
                        DetectEditorError::FreeDesktopEntryNotFound,
                    ),
                    EntrySearch::Unreadable => r == Err::<Self, DetectEditorError>(
                        DetectEditorError::FreeDesktopEntryParseError,
                    ),
                    EntrySearch::Found(app) => r == Ok::<Self, DetectEditorError>(app),
                },
            },
    {
        if entry.is_none() {
            return Err(DetectEditorError::NoDefaultEditorSet);
        }
        match search {
            EntrySearch::NotFound => Err(DetectEditorError::FreeDesktopEntryNotFound),
            EntrySearch::Unreadable => Err(DetectEditorError::FreeDesktopEntryParseError),
            EntrySearch::Found(app) => Ok(app),
        }
    }

    /// The command that opens a file: `command_parts` is the command
    /// line of the desktop entry, cut into its parts with the file put
    /// in. The first part is the program and the others its arguments; a
    /// command line without parts is no command.
    pub fn open_file(command_parts: &Vec<String>) -> (r: Result<Command, OpenFileError>)
        ensures
            match r {
                Ok(command) => command_parts.len() > 0 && command@ == CommandView::impure(
                    command_parts[0]@,
                ).with_args(command_parts.deep_view().skip(1)),
                Err(e) => command_parts.len() == 0 && e is CommandParsingFailed,
            },
    {
        if command_parts.len() > 0 {
            let mut args: Vec<String> = Vec::new();
            let mut i: usize = 1;
            while i < command_parts.len()
                invariant
                    1 <= i <= command_parts.len(),
                    args.deep_view() == command_parts.deep_view().subrange(1, i as int),
                decreases command_parts.len() - i,
            {
                let ghost before = args.deep_view();
                args.push(command_parts[i].clone());
                proof {
                    assert(args.deep_view() =~= before.push(command_parts[i as int]@));
                }
                i += 1;
            }
            Ok(Command::impure(command_parts[0].as_str()).with_args(&args))
        } else {
            Err(OpenFileError::CommandParsingFailed)
        }
    }
}

/// The command that opens `path` with `application`: the command line of
/// the application's desktop entry where one was found and has parts,
/// else the application's name alone.
pub fn open_file_with(application: &str, command_parts: Option<Vec<String>>) -> (r: Command)
    ensures
        r@ == match command_parts {
            Some(parts) => if parts.len() > 0 {
                CommandView::impure(parts[0]@).with_args(parts.deep_view().skip(1))
            } else {
                CommandView::impure(application@)
            },
            None => CommandView::impure(application@),
        },
{
    match command_parts {
        Some(parts) => match Application::open_file(&parts) {
            Ok(command) => command,
            Err(_) => Command::impure(application),
        },
        None => Command::impure(application),
    }
}

/// The command that tells where the program `name` lies, by the shell's
/// own `command -v`.
pub fn command_path(name: &str) -> (r: Command)
    ensures
        r@ == CommandView::impure("sh"@).with_args(seq!["-c"@, "command -v "@ + name@]),
{
    let args = vec!["-c".to_owned(), "command -v ".to_owned().concat(name)];
    proof {
        assert(args.deep_view() =~= seq!["-c"@, "command -v "@ + name@]);
    }
    Command::impure("sh").with_args(&args)
}

} // verus!
