//! Opening files on Windows, with the program that the registry names.

pub mod info;
pub mod windows;

use self::windows::{FileType, WindowsError};
use crate::util::command::{Command, CommandView};
use vstd::prelude::*;
use vstd::string::*;

verus! {

/// Why no editor could be found.
#[derive(Clone, Copy, Debug, PartialEq, Eq, Structural)]
pub enum DetectEditorError {
    NoDefaultEditorSet,
    ExecFieldMissing,
}

impl DetectEditorError {
    /// The sentence that describes the error.
    pub open spec fn message(self) -> Seq<char> {
        match self {
            DetectEditorError::NoDefaultEditorSet => {
                "No default editor is set: registry queries for \".rs\" and \".txt\" both failed"@
            },
            DetectEditorError::ExecFieldMissing => "Exec field on desktop entry was not found"@,
        }
    }

    pub fn to_string(&self) -> (r: String)
        ensures
            r@ == self.message(),
    {
        match self {
            DetectEditorError::NoDefaultEditorSet => {
                "No default editor is set: registry queries for \".rs\" and \".txt\" both failed".to_owned()
            },
            DetectEditorError::ExecFieldMissing => {
                "Exec field on desktop entry was not found".to_owned()
            },
        }
    }
}

/// Why a file could not be opened.
#[derive(Debug)]
pub enum OpenFileError {
    /// The program could not be started; the text says why.
    LaunchFailed(String),
    CommandParsingFailed,
}

impl OpenFileError {
    /// The sentence that describes the error.
    pub open spec fn message(&self) -> Seq<char> {
        match self {
            OpenFileError::LaunchFailed(e) => "Launch failed: "@ + e@,
            OpenFileError::CommandParsingFailed => "Command parsing failed"@,
        }
    }

    pub fn to_string(&self) -> (r: String)
        ensures
            r@ == self.message(),
    {
        match self {
            OpenFileError::LaunchFailed(e) => "Launch failed: ".to_owned().concat(e.as_str()),
            OpenFileError::CommandParsingFailed => "Command parsing failed".to_owned(),
        }
    }
}

/// A program that opens files.
#[derive(Debug)]
pub struct Application {
    pub exec_command: String,
}

impl Application {
    /// The editor that the registry names: the program for Rust sources
    /// if the registry knows one, else the program for plain text.
    pub fn detect_editor(
        rust_editor: Result<String, WindowsError>,
        text_editor: Result<String, WindowsError>,
    ) -> (r: Result<Self, DetectEditorError>)
        ensures
            match (rust_editor, text_editor) {
                (Ok(command), _) => r matches Ok(app) && app.exec_command == command,
                (Err(_), Ok(command)) => r matches Ok(app) && app.exec_command == command,
                (Err(_), Err(_)) => r == Err::<Self, DetectEditorError>(
                    DetectEditorError::NoDefaultEditorSet,
                ),
            },
    {
        match rust_editor {
            Ok(command) => Ok(Self { exec_command: command }),
            Err(_) => match text_editor {
                Ok(command) => Ok(Self { exec_command: command }),
                Err(_) => Err(DetectEditorError::NoDefaultEditorSet),
            },
        }
    }

    /// The command that opens the file at `path`.
    pub fn open_file(&self, path: &str) -> (r: Command)
        ensures
            r@ == CommandView::impure(self.exec_command@).with_arg(path@),
    {
        Command::impure(self.exec_command.as_str()).with_arg(path)
    }
}

/// The command that opens `path` with `application`.
pub fn open_file_with(application: &str, path: &str) -> (r: Command)
    ensures
        r@ == CommandView::impure(application@).with_arg(path@),
{
    Command::impure(application).with_arg(path)
}

/// The command that tells, by its success, whether the program `name` is
/// there.
pub fn command_path(name: &str) -> (r: Command)
    ensures
        r@ == CommandView::impure("powershell"@).with_args(seq!["-Command"@, name@]),
{
    let args = vec!["-Command".to_owned(), name.to_owned()];
    proof {
        assert(args.deep_view() =~= seq!["-Command"@, name@]);
    }
    Command::impure("powershell").with_args(&args)
}

} // verus!
