//! Desktop entries, by which a Linux desktop says which program opens
//! what.

use crate::env::Vars;
use crate::text::{chars_of, split, split_str, string_of, trim, trimmed};
use crate::util::command::{Command, CommandView};
use vstd::prelude::*;
use vstd::string::*;

verus! {

/// The command that asks which desktop entry handles `mime_type`.
pub fn query_mime_command(mime_type: &str) -> (r: Command)
    ensures
        r@ == CommandView::impure("xdg-mime"@).with_args(seq!["query"@, "default"@, mime_type@]),
{
    let args = vec!["query".to_owned(), "default".to_owned(), mime_type.to_owned()];
    proof {
        assert(args.deep_view() =~= seq!["query"@, "default"@, mime_type@]);
    }
    Command::impure("xdg-mime").with_args(&args)
}

/// The name of the desktop entry that the answer of `xdg-mime` gives:
/// the answer without the white space around it, unless it is empty.
pub fn query_mime_entry(output: &str) -> (r: Option<String>)
    ensures
        r.deep_view() == if output@.len() == 0 {
            None
        } else {
            Some(trimmed(output@))
        },
{
    if !output.is_empty() {
        Some(trim(output))
    } else {
        None
    }
}

/// What a directory holds under one name.
pub enum Node {
    File,
    Dir(Vec<Entry>),
    /// Something that is neither a file nor a directory.
    Other,
}

/// A name in a directory, and what stands there.
pub struct Entry {
    pub name: String,
    pub node: Node,
}

/// The path, as the names from the directory searched down to the file,
/// of the first file called `target` among `entries`, from entry number
/// `from` on. The entries are looked at in their order, and the inside of
/// a directory before what follows the directory.
pub open spec fn found_in(entries: Seq<Entry>, target: Seq<char>, from: int) -> Option<
    Seq<Seq<char>>,
>
    decreases entries, entries.len() - from,
{
    if from < 0 || from >= entries.len() {
        None
    } else {
        let here = match entries[from].node {
            Node::File => if entries[from].name@ == target {
                Some(seq![entries[from].name@])
            } else {
                None
            },
            Node::Dir(inner) => match found_in(inner@, target, 0) {
                Some(path) => Some(seq![entries[from].name@] + path),
                None => None,
            },
            Node::Other => None,
        };
        match here {
            Some(path) => Some(path),
            None => found_in(entries, target, from + 1),
        }
    }
}

/// Looks for the first file called `target` in a directory, of which
/// `entries` is what the program read, and in the directories inside
/// it.
pub fn find_entry_in_dir(entries: &Vec<Entry>, target: &str) -> (r: Option<Vec<String>>)
    ensures
        r.deep_view() == found_in(entries@, target@, 0),
    decreases entries,
{
    let mut i: usize = 0;
    while i < entries.len()
        invariant
            i <= entries.len(),
            found_in(entries@, target@, 0) == found_in(entries@, target@, i as int),
        decreases entries.len() - i,
    {
        let entry = &entries[i];
        match &entry.node {
            Node::File => {
                if entry.name.as_str().eq(target) {
                    let path = vec![entry.name.clone()];
                    return Some(path);
                }
            },
            Node::Dir(inner) => {
                match find_entry_in_dir(inner, target) {
                    Some(rest) => {
                        let mut path = vec![entry.name.clone()];
                        let mut rest = rest;
                        path.append(&mut rest);
                        return Some(path);
                    },
                    None => {},
                }
            },
            Node::Other => {},
        }
        i += 1;
    }
    None
}

/// Whether `command` begins with a marker, one of the places at which
/// the file to open is put in: `%u`, `%U`, `%f` or `%F`.
pub open spec fn starts_with_marker(command: Seq<char>) -> bool {
    command.len() >= 2 && command[0] == '%' && (command[1] == 'u' || command[1] == 'U'
        || command[1] == 'f' || command[1] == 'F')
}

/// `command` with `argument` in the place of each marker. The markers
/// are found in one pass from the left; what has been put in is not
/// looked at again.
pub open spec fn filled_in(command: Seq<char>, argument: Seq<char>) -> Seq<char>
    decreases command.len(),
{
    if command.len() == 0 {
        Seq::<char>::empty()
    } else if starts_with_marker(command) {
        argument + filled_in(command.skip(2), argument)
    } else {
        seq![command[0]] + filled_in(command.drop_first(), argument)
    }
}

/// The command line of a desktop entry with the file `argument` put in.
pub fn build_command(command: &str, argument: &str) -> (r: String)
    ensures
        r@ == filled_in(command@, argument@),
{
    let chars = chars_of(command);
    let mut out = String::new();
    let mut i: usize = 0;
    proof {
        assert(command@.skip(0) =~= command@);
    }
    while i < chars.len()
        invariant
            i <= chars.len(),
            chars@ == command@,
            out@ + filled_in(command@.skip(i as int), argument@) == filled_in(
                command@,
                argument@,
            ),
        decreases chars.len() - i,
    {
        let c = chars[i];
        let ghost rest = command@.skip(i as int);
        proof {
            if i + 1 < chars.len() {
            }
        }
        let marker = c == '%' && i + 1 < chars.len() && (chars[i + 1] == 'u' || chars[i + 1] == 'U'
            || chars[i + 1] == 'f' || chars[i + 1] == 'F');
        if marker {
            out.append(argument);
            proof {
                assert(rest.skip(2) =~= command@.skip(i + 2));
            }
            i += 2;
        } else {
            out = crate::text::with_char(out, c);
            proof {
                assert(rest.drop_first() =~= command@.skip(i + 1));
            }
            i += 1;
        }
    }
    out
}

/// The directories in which desktop entries are looked for: the user's
/// own, which is `XDG_DATA_HOME` or `.local/share` under the home
/// directory, if there is a home directory; then those of
/// `XDG_DATA_DIRS`, or the two usual ones.
pub open spec fn xdg_data_dirs(vars: &Vars) -> Seq<Seq<char>> {
    let own = match vars.value("HOME"@) {
        Some(home) => seq![
            match vars.value("XDG_DATA_HOME"@) {
                Some(dir) => dir,
                None => home + "/.local/share"@,
            },
        ],
        None => Seq::<Seq<char>>::empty(),
    };
    own + match vars.value("XDG_DATA_DIRS"@) {
        Some(dirs) => split(dirs, ':'),
        None => seq!["/usr/local/share"@, "/usr/share"@],
    }
}

pub fn get_xdg_data_dirs(vars: &Vars) -> (r: Vec<String>)
    ensures
        r.deep_view() == xdg_data_dirs(vars),
{
    let mut result: Vec<String> = Vec::new();
    if let Some(home) = vars.var_ok("HOME") {
        let xdg_data_home = match vars.var_ok("XDG_DATA_HOME") {
            Some(dir) => dir,
            None => home.concat("/.local/share"),
        };
        result.push(xdg_data_home);
    }
    match vars.var_ok("XDG_DATA_DIRS") {
        Some(dirs) => {
            let mut entries = split_str(dirs.as_str(), ':');
            result.append(&mut entries);
        },
        None => {
            result.push("/usr/local/share".to_owned());
            result.push("/usr/share".to_owned());
        },
    }
    result
}

} // verus!
