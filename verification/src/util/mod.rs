pub mod case;
pub mod cli;
pub mod command;
pub mod disk;
pub mod git;
pub mod ln;
pub mod path;
pub mod pattern;
pub mod prompt;
pub mod properties;
pub mod rust_version;
pub mod version;

use crate::text::{debug_str, debug_text, join, join_strs, split, split_str};
use vstd::prelude::*;
use vstd::string::*;

pub use self::version::{VersionDouble, VersionDoubleError, VersionTriple, VersionTripleError};

verus! {

/// The first `upto` items of a list, written as a series: each item
/// but the last is followed by a comma and a blank, the last comes behind
/// the word `and`.
pub open spec fn series(items: Seq<Seq<char>>, upto: int) -> Seq<char>
    decreases upto,
{
    if upto <= 0 {
        Seq::<char>::empty()
    } else if upto == items.len() {
        series(items, upto - 1) + "and "@ + items[upto - 1]
    } else {
        series(items, upto - 1) + items[upto - 1] + ", "@
    }
}

/// How a list reads in a sentence: one item alone, two joined by `and`,
/// more as a series.
pub open spec fn list_text(items: Seq<Seq<char>>) -> Seq<char> {
    if items.len() == 1 {
        items[0]
    } else if items.len() == 2 {
        items[0] + " and "@ + items[1]
    } else {
        series(items, items.len() as int)
    }
}

/// Writes a list as it reads in a sentence.
pub fn list_display(list: &Vec<String>) -> (r: String)
    ensures
        r@ == list_text(list.deep_view()),
{
    if list.len() == 1 {
        list[0].clone()
    } else if list.len() == 2 {
        list[0].clone().concat(" and ").concat(list[1].as_str())
    } else {
        let mut display = String::new();
        let mut idx: usize = 0;
        while idx < list.len()
            invariant
                idx <= list.len(),
                display@ == series(list.deep_view(), idx as int),
            decreases list.len() - idx,
        {
            if idx + 1 == list.len() {
                display.append("and ");
                display.append(list[idx].as_str());
            } else {
                display.append(list[idx].as_str());
                display.append(", ");
            }
            idx += 1;
        }
        display
    }
}

/// The labels of `domain` in reverse order, with dots between them.
pub open spec fn reversed_domain(domain: Seq<char>) -> Seq<char> {
    join(split(domain, '.').reverse(), seq!['.'])
}

/// Turns `com.example` into `example.com`.
pub fn reverse_domain(domain: &str) -> (r: String)
    ensures
        r@ == reversed_domain(domain@),
{
    let labels = split_str(domain, '.');
    let mut reversed: Vec<String> = Vec::new();
    let mut i: usize = labels.len();
    while i > 0
        invariant
            i <= labels.len(),
            reversed.len() == labels.len() - i,
            forall|j: int|
                0 <= j < reversed.len() ==> reversed[j]@ == labels[labels.len() - 1 - j]@,
        decreases i,
    {
        i -= 1;
        reversed.push(labels[i].clone());
    }
    proof {
        reveal_strlit(".");
        assert("."@ =~= seq!['.']);
        assert(reversed.deep_view() =~= labels.deep_view().reverse());
    }
    join_strs(&reversed, ".")
}

/// Reversing a domain twice gives the domain back.
pub proof fn lemma_reverse_domain_twice(domain: Seq<char>)
    ensures
        reversed_domain(reversed_domain(domain)) == domain,
{
    let labels = split(domain, '.');
    crate::text::lemma_split_nonempty(domain, '.');
    crate::text::lemma_split_pieces_free(domain, '.');
    crate::text::lemma_split_join(labels.reverse(), '.');
    assert(labels.reverse().reverse() =~= labels);
    crate::text::lemma_join_split(domain, '.');
}

/// `path` put in front of the search path `base_path`.
pub fn prepend_to_path(path: &str, base_path: &str) -> (r: String)
    ensures
        r@ == path@ + ":"@ + base_path@,
{
    path.to_owned().concat(":").concat(base_path)
}

/// The line that tells which commits an installation holds.
pub fn format_commit_msg(msg: String) -> (r: String)
    ensures
        r@ == "Contains commits up to "@ + debug_text(msg@),
{
    "Contains commits up to ".to_owned().concat(debug_str(msg.as_str()).as_str())
}

/// The value of a result whose two sides have one type.
pub fn unwrap_either<T>(result: Result<T, T>) -> (r: T)
    ensures
        r == match result {
            Ok(t) => t,
            Err(t) => t,
        },
{
    match result {
        Ok(t) => t,
        Err(t) => t,
    }
}

/// One value, or a list of them, as a configuration file may give either.
#[derive(Clone, Debug, PartialEq)]
pub enum OneOrMany<T> {
    One(T),
    Many(Vec<T>),
}

impl<T> OneOrMany<T> {
    /// The values as a list.
    pub open spec fn values(self) -> Seq<T> {
        match self {
            OneOrMany::One(val) => seq![val],
            OneOrMany::Many(vec) => vec@,
        }
    }

    /// The values as a list.
    pub fn into_vec(self) -> (r: Vec<T>)
        ensures
            r@ == self.values(),
    {
        match self {
            OneOrMany::One(val) => {
                let mut v = Vec::new();
                v.push(val);
                v
            },
            OneOrMany::Many(vec) => vec,
        }
    }
}

/// A CocoaPods dependency.
#[derive(Clone, Debug)]
pub struct Pod {
    pub name: String,
    pub version: Option<String>,
}

/// The command that adds the target `triple` to the toolchain.
pub fn rustup_add(triple: &str) -> (r: command::Command)
    ensures
        r@ == command::CommandView::impure("rustup"@).with_args(
            seq!["target"@, "add"@, triple@],
        ),
{
    let args = vec!["target".to_owned(), "add".to_owned(), triple.to_owned()];
    proof {
        assert(args.deep_view() =~= seq!["target"@, "add"@, triple@]);
    }
    command::Command::impure("rustup").with_args(&args)
}

/// Why the triple of the host could not be told.
#[derive(Debug)]
pub enum HostTargetTripleError {
    CommandFailed(rust_version::RunAndSearchError),
}

impl HostTargetTripleError {
    pub fn report(&self) -> (r: cli::Report)
        ensures
            r@ == match self {
                HostTargetTripleError::CommandFailed(err) => cli::ReportView {
                    label: cli::Label::Error,
                    msg: "Failed to detect host target triple"@,
                    details: err@.message(),
                },
            },
    {
        match self {
            HostTargetTripleError::CommandFailed(err) => cli::Report::error(
                "Failed to detect host target triple".to_owned(),
                err.to_string(),
            ),
        }
    }
}

/// The pattern of the line in which the compiler names its host.
pub const HOST_PATTERN: &'static str = r"host: ([\w-]+)";

/// The triple of the host, by what the search for the pattern found in
/// the output of the compiler: what the first group holds.
pub open spec fn host_triple_of(output: Seq<char>) -> Result<
    Seq<char>,
    rust_version::RunAndSearchErrorView,
> {
    let failed = rust_version::RunAndSearchErrorView::SearchFailed {
        command: "rustc --verbose --version"@,
        output,
    };
    match (pattern::pattern_names(HOST_PATTERN@), pattern::first_match(HOST_PATTERN@, output)) {
        (None, _) => Err(
            rust_version::RunAndSearchErrorView::PatternInvalid { pattern: HOST_PATTERN@ },
        ),
        (Some(_), None) => Err(failed),
        (Some(_), Some(groups)) => if groups.len() > 1 && groups[1] is Some {
            Ok(groups[1]->0)
        } else {
            Err(failed)
        },
    }
}

/// Reads the triple of the host from what `rustc --verbose --version`
/// printed.
pub fn host_target_triple(output: &str) -> (r: Result<String, HostTargetTripleError>)
    ensures
        match host_triple_of(output@) {
            Ok(triple) => r matches Ok(t) && t@ == triple,
            Err(e) => r matches Err(HostTargetTripleError::CommandFailed(f)) && f@ == e,
        },
{
    let caps = match rust_version::run_and_search("rustc --verbose --version", HOST_PATTERN, output) {
        Ok(caps) => caps,
        Err(e) => {
            return Err(HostTargetTripleError::CommandFailed(e));
        },
    };
    proof {
        if caps.groups.len() > 1 {
        }
    }
    match caps.get(1) {
        Some(triple) => Ok(triple),
        None => Err(
            HostTargetTripleError::CommandFailed(
                rust_version::RunAndSearchError::SearchFailed {
                    command: "rustc --verbose --version".to_owned(),
                    output: output.to_owned(),
                },
            ),
        ),
    }
}

/// How a search for a command ended.
#[derive(Debug)]
pub enum Lookup {
    /// The command was found.
    Found,
    /// The search ran and ended with an exit code.
    Exited,
    /// The search could not be run, or was killed; the text says why.
    Failed(String),
}

/// Whether a command is there: it is if the search found it, and it is
/// not if the search ran and found nothing. A search that did not run to
/// its end tells nothing.
pub fn command_present(lookup: Lookup) -> (r: Result<bool, String>)
    ensures
        r == match lookup {
            Lookup::Found => Ok::<bool, String>(true),
            Lookup::Exited => Ok(false),
            Lookup::Failed(err) => Err(err),
        },
{
    match lookup {
        Lookup::Found => Ok(true),
        Lookup::Exited => Ok(false),
        Lookup::Failed(err) => Err(err),
    }
}

/// Why the output of one command did not reach another.
#[derive(Debug)]
pub enum PipeError {
    TxCommandFailed(String),
    RxCommandFailed(String),
    PipeFailed(String),
    WaitFailed(String),
}

impl PipeError {
    /// The sentence that describes the error.
    pub open spec fn message(&self) -> Seq<char> {
        match self {
            PipeError::TxCommandFailed(err) => "Failed to run sending command: "@ + err@,
            PipeError::RxCommandFailed(err) => "Failed to run receiving command: "@ + err@,
            PipeError::PipeFailed(err) => "Failed to pipe output: "@ + err@,
            PipeError::WaitFailed(err) => "Failed to wait for receiving command to exit: "@
                + err@,
        }
    }

    pub fn to_string(&self) -> (r: String)
        ensures
            r@ == self.message(),
    {
        match self {
            PipeError::TxCommandFailed(err) => {
                "Failed to run sending command: ".to_owned().concat(err.as_str())
            },
            PipeError::RxCommandFailed(err) => {
                "Failed to run receiving command: ".to_owned().concat(err.as_str())
            },
            PipeError::PipeFailed(err) => "Failed to pipe output: ".to_owned().concat(
                err.as_str(),
            ),
            PipeError::WaitFailed(err) => {
                "Failed to wait for receiving command to exit: ".to_owned().concat(err.as_str())
            },
        }
    }
}

/// How the receiving end of a pipe fared: whether the output could be
/// written to it, and whether it then ran to its end.
pub fn pipe(pipe_result: Result<(), String>, wait_result: Result<(), String>) -> (r: Result<
    bool,
    PipeError,
>)
    ensures
        match (pipe_result, wait_result) {
            (Err(err), _) => r matches Err(PipeError::PipeFailed(e)) && e == err,
            (Ok(()), Err(err)) => r matches Err(PipeError::WaitFailed(e)) && e == err,
            (Ok(()), Ok(())) => r matches Ok(true),
        },
{
    // A failure to write counts for more than a failure to wait: it is
    // more likely to tell what went wrong.
    match pipe_result {
        Err(err) => Err(PipeError::PipeFailed(err)),
        Ok(()) => match wait_result {
            Err(err) => Err(PipeError::WaitFailed(err)),
            Ok(()) => Ok(true),
        },
    }
}

/// Why the file that tells the installed commits could not be read.
#[derive(Debug)]
pub enum InstalledCommitMsgError {
    NoHomeDir(path::NoHomeDir),
    ReadFailed { path: path::PathParts, source: String },
}

impl InstalledCommitMsgError {
    /// The sentence that describes the error.
    pub open spec fn message(&self) -> Seq<char> {
        match self {
            InstalledCommitMsgError::NoHomeDir(_) => "Failed to get user's home directory!"@,
            InstalledCommitMsgError::ReadFailed { path, source } => {
                "Failed to read version info from "@ + debug_text(path::path_text(path@))
                    + ": "@ + source@
            },
        }
    }

    pub fn to_string(&self) -> (r: String)
        ensures
            r@ == self.message(),
    {
        match self {
            InstalledCommitMsgError::NoHomeDir(err) => err.to_string(),
            InstalledCommitMsgError::ReadFailed { path, source } => {
                "Failed to read version info from ".to_owned().concat(
                    debug_str(path.to_string().as_str()).as_str(),
                ).concat(": ").concat(source.as_str())
            },
        }
    }
}

/// The file that tells which commits an installation holds.
pub fn installed_commit_msg_path(home: Result<path::PathParts, path::NoHomeDir>) -> (r: Result<
    path::PathParts,
    InstalledCommitMsgError,
>)
    ensures
        match (home, r) {
            (Ok(home), Ok(file)) => file@ == home@.push(
                path::PartView::Name(".cargo-mobile"@),
            ).push(path::PartView::Name("commit"@)),
            (Err(_), Err(e)) => e is NoHomeDir,
            _ => false,
        },
{
    match path::install_dir(home) {
        Ok(dir) => Ok(dir.join_name("commit")),
        Err(e) => Err(InstalledCommitMsgError::NoHomeDir(e)),
    }
}

/// What the file at `path` tells of the installed commits: nothing where
/// `disk` has no file there; else `contents`, what the file holds or why
/// it could not be read.
pub fn installed_commit_msg(
    path: path::PathParts,
    disk: &disk::Disk,
    contents: Result<String, String>,
) -> (r: Result<Option<String>, InstalledCommitMsgError>)
    ensures
        if !disk.file_at(path@) {
            r matches Ok(None)
        } else {
            match contents {
                Ok(text) => r matches Ok(Some(t)) && t == text,
                Err(cause) => r matches Err(InstalledCommitMsgError::ReadFailed { path: p, source })
                    && p == path && source == cause,
            }
        },
{
    if disk.is_file(&path) {
        match contents {
            Ok(text) => Ok(Some(text)),
            Err(source) => Err(InstalledCommitMsgError::ReadFailed { path, source }),
        }
    } else {
        Ok(None)
    }
}

/// Why a file could not be opened in the editor.
#[derive(Debug)]
pub enum OpenInEditorError {
    DetectFailed(crate::os::linux::DetectEditorError),
    OpenFailed(crate::os::linux::OpenFileError),
}

impl OpenInEditorError {
    /// The sentence that describes the error.
    pub open spec fn message(&self) -> Seq<char> {
        match self {
            OpenInEditorError::DetectFailed(err) => "Failed to detect editor: "@ + err.message(),
            OpenInEditorError::OpenFailed(err) => "Failed to open path in edtior: "@
                + err.message(),
        }
    }

    pub fn to_string(&self) -> (r: String)
        ensures
            r@ == self.message(),
    {
        match self {
            OpenInEditorError::DetectFailed(err) => {
                "Failed to detect editor: ".to_owned().concat(err.to_string().as_str())
            },
            OpenInEditorError::OpenFailed(err) => {
                "Failed to open path in edtior: ".to_owned().concat(err.to_string().as_str())
            },
        }
    }
}

/// The command that opens a file in the editor that was detected.
/// `command_parts` is the editor's command line, cut into its parts with
/// the file put in.
pub fn open_in_editor(
    editor: Result<crate::os::linux::Application, crate::os::linux::DetectEditorError>,
    command_parts: &Vec<String>,
) -> (r: Result<command::Command, OpenInEditorError>)
    ensures
        match editor {
            Err(err) => r matches Err(OpenInEditorError::DetectFailed(e)) && e == err,
            Ok(_) => match r {
                Ok(command) => command_parts.len() > 0 && command@
                    == command::CommandView::impure(command_parts[0]@).with_args(
                    command_parts.deep_view().skip(1),
                ),
                Err(e) => command_parts.len() == 0 && (e matches OpenInEditorError::OpenFailed(o)
                    && o is CommandParsingFailed),
            },
        },
{
    match editor {
        Err(err) => Err(OpenInEditorError::DetectFailed(err)),
        Ok(_) => match crate::os::linux::Application::open_file(command_parts) {
            Ok(command) => Ok(command),
            Err(err) => Err(OpenInEditorError::OpenFailed(err)),
        },
    }
}

/// Why work in another directory failed.
#[derive(Debug)]
pub enum WithWorkingDirError<E> {
    CurrentDirGetFailed(String),
    CurrentDirSetFailed { path: path::PathParts, source: String },
    CallbackFailed(E),
}

impl<E> WithWorkingDirError<E> {
    /// The sentence that describes the error; `callback` is the sentence
    /// of the work's own error.
    pub open spec fn message(&self, callback: Seq<char>) -> Seq<char> {
        match self {
            WithWorkingDirError::CurrentDirGetFailed(err) => "Failed to get current directory: "@
                + err@,
            WithWorkingDirError::CurrentDirSetFailed { path, source } => {
                "Failed to set working directory "@ + debug_text(path::path_text(path@)) + ": "@
                    + source@
            },
            WithWorkingDirError::CallbackFailed(_) => callback,
        }
    }

    pub fn to_string(&self, callback: &str) -> (r: String)
        ensures
            r@ == self.message(callback@),
    {
        match self {
            WithWorkingDirError::CurrentDirGetFailed(err) => {
                "Failed to get current directory: ".to_owned().concat(err.as_str())
            },
            WithWorkingDirError::CurrentDirSetFailed { path, source } => {
                "Failed to set working directory ".to_owned().concat(
                    debug_str(path.to_string().as_str()).as_str(),
                ).concat(": ").concat(source.as_str())
            },
            WithWorkingDirError::CallbackFailed(_) => callback.to_owned(),
        }
    }
}

} // verus!
