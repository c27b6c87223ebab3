//! The environment variables that the tool hands on to the commands it
//! runs.

use crate::os::Host;
use crate::text::{debug_str, debug_text};
use crate::util::cli::{Report, ReportView, Label};
use crate::util::path::path_text;
use vstd::prelude::*;
use vstd::string::*;

verus! {

/// Something that knows which variables its commands need.
pub trait ExplicitEnv {
    /// The variables, as names and values.
    fn explicit_env(&self) -> Vec<(String, String)>;
}

/// Why an environment variable has no value to work with.
#[derive(Debug)]
pub enum VarError {
    /// The variable is not set.
    NotPresent,
    /// The variable holds something that is no Unicode text; the field
    /// holds what could be read of it.
    NotUnicode(String),
}

impl VarError {
    /// The sentence that describes the error.
    pub open spec fn message(&self) -> Seq<char> {
        match self {
            VarError::NotPresent => "environment variable not found"@,
            VarError::NotUnicode(s) => "environment variable was not valid unicode: "@
                + debug_text(s@),
        }
    }

    pub fn to_string(&self) -> (r: String)
        ensures
            r@ == self.message(),
    {
        match self {
            VarError::NotPresent => "environment variable not found".to_owned(),
            VarError::NotUnicode(s) => "environment variable was not valid unicode: ".to_owned().concat(
                debug_str(s.as_str()).as_str(),
            ),
        }
    }

    pub fn copy(&self) -> (r: VarError)
        ensures
            r.message() == self.message(),
            r is NotPresent <==> self is NotPresent,
    {
        match self {
            VarError::NotPresent => VarError::NotPresent,
            VarError::NotUnicode(s) => VarError::NotUnicode(s.clone()),
        }
    }
}

/// What one environment variable holds.
#[derive(Debug)]
pub enum VarValue {
    Text(String),
    /// Something that is no Unicode text; the field holds what could be
    /// read of it.
    NotUnicode(String),
}

/// The environment of the process: names and what they hold. The program
/// fills it in once; the library only reads it.
#[derive(Debug)]
pub struct Vars {
    pub entries: Vec<(String, VarValue)>,
}

/// The index of the first entry called `name` among the first `upto`, or
/// none.
pub open spec fn first_entry(entries: Seq<(String, VarValue)>, name: Seq<char>, from: int) -> Option<
    int,
>
    decreases entries.len() - from,
{
    if from < 0 || from >= entries.len() {
        None
    } else if entries[from].0@ == name {
        Some(from)
    } else {
        first_entry(entries, name, from + 1)
    }
}

impl Vars {
    /// What looking the variable `name` up gives: the text of the first
    /// entry of that name, or why there is none to work with.
    pub open spec fn lookup(&self, name: Seq<char>) -> Result<String, VarError> {
        match first_entry(self.entries@, name, 0) {
            Some(i) => match self.entries@[i].1 {
                VarValue::Text(s) => Ok(s),
                VarValue::NotUnicode(s) => Err(VarError::NotUnicode(s)),
            },
            None => Err(VarError::NotPresent),
        }
    }

    /// What the variable `name` holds, as text.
    pub open spec fn value(&self, name: Seq<char>) -> Option<Seq<char>> {
        match self.lookup(name) {
            Ok(s) => Some(s@),
            Err(_) => None,
        }
    }

    /// What the variable `name` holds (`std::env::var`).
    pub fn var(&self, name: &str) -> (r: Result<String, VarError>)
        ensures
            r == self.lookup(name@),
    {
        let mut i: usize = 0;
        while i < self.entries.len()
            invariant
                i <= self.entries.len(),
                first_entry(self.entries@, name@, 0) == first_entry(self.entries@, name@, i as int),
            decreases self.entries.len() - i,
        {
            if self.entries[i].0.as_str().eq(name) {
                return match &self.entries[i].1 {
                    VarValue::Text(s) => Ok(s.clone()),
                    VarValue::NotUnicode(s) => Err(VarError::NotUnicode(s.clone())),
                };
            }
            i += 1;
        }
        Err(VarError::NotPresent)
    }

    /// What the variable `name` holds, if it holds text.
    pub fn var_ok(&self, name: &str) -> (r: Option<String>)
        ensures
            r.deep_view() == self.value(name@),
    {
        match self.var(name) {
            Ok(s) => Some(s),
            Err(_) => None,
        }
    }
}

/// A variable that the tool cannot do without.
#[derive(Debug)]
pub enum Error {
    HomeNotSet(VarError),
    PathNotSet(VarError),
    SystemRootNotSet(VarError),
    OsNotSet(VarError),
    JavaHomeNotSet(VarError),
}

impl Error {
    /// The sentence that describes the error.
    pub open spec fn message(&self) -> Seq<char> {
        match self {
            Error::HomeNotSet(err) => {
                "The `HOME` environment variable isn't set, which is pretty weird: "@
                    + err.message()
            },
            Error::PathNotSet(err) => {
                "The `PATH` environment variable isn't set, which is super weird: "@
                    + err.message()
            },
            Error::SystemRootNotSet(err) => {
                "The `SYSTEMROOT` environment variable isn't set, which is super weird: "@
                    + err.message()
            },
            Error::OsNotSet(err) => {
                "The `OS` environment variable isn't set, which is super weird: "@ + err.message()
            },
            Error::JavaHomeNotSet(err) => {
                "The `JAVA_HOME` environment variable isn't set, which is super weird: "@
                    + err.message()
            },
        }
    }

    pub fn to_string(&self) -> (r: String)
        ensures
            r@ == self.message(),
    {
        match self {
            Error::HomeNotSet(err) => {
                "The `HOME` environment variable isn't set, which is pretty weird: ".to_owned().concat(
                    err.to_string().as_str(),
                )
            },
            Error::PathNotSet(err) => {
                "The `PATH` environment variable isn't set, which is super weird: ".to_owned().concat(
                    err.to_string().as_str(),
                )
            },
            Error::SystemRootNotSet(err) => {
                "The `SYSTEMROOT` environment variable isn't set, which is super weird: ".to_owned().concat(
                    err.to_string().as_str(),
                )
            },
            Error::OsNotSet(err) => {
                "The `OS` environment variable isn't set, which is super weird: ".to_owned().concat(
                    err.to_string().as_str(),
                )
            },
            Error::JavaHomeNotSet(err) => {
                "The `JAVA_HOME` environment variable isn't set, which is super weird: ".to_owned().concat(
                    err.to_string().as_str(),
                )
            },
        }
    }

    pub fn report(&self) -> (r: Report)
        ensures
            r@ == (ReportView {
                label: Label::Error,
                msg: "Failed to initialize base environment"@,
                details: self.message(),
            }),
    {
        Report::error("Failed to initialize base environment".to_owned(), self.to_string())
    }
}

/// The three variables that only Windows needs.
#[derive(Debug)]
pub struct WindowsEnv {
    pub system_root: String,
    pub os: String,
    pub java_home: String,
}

/// The variables that every command gets.
#[derive(Debug)]
pub struct Env {
    pub home: String,
    pub path: String,
    pub term: Option<String>,
    pub ssh_auth_sock: Option<String>,
    /// Present on Windows, absent elsewhere.
    pub windows: Option<WindowsEnv>,
}

/// The name of the variable that holds the home directory.
pub open spec fn home_var(host: Host) -> Seq<char> {
    if host.windows() {
        "USERPROFILE"@
    } else {
        "HOME"@
    }
}

impl Env {
    /// Whether `vars` holds every variable that `host` needs.
    pub open spec fn complete(vars: &Vars, host: Host) -> bool {
        &&& vars.value(home_var(host)) is Some
        &&& vars.value("PATH"@) is Some
        &&& host.windows() ==> {
            &&& vars.value("SYSTEMROOT"@) is Some
            &&& vars.value("OS"@) is Some
            &&& vars.value("JAVA_HOME"@) is Some
        }
    }

    /// Takes from `vars` what the commands need. The home directory and
    /// the search path must be there, on Windows three more; the first one
    /// that is missing is the error.
    pub fn new(vars: &Vars, host: Host) -> (r: Result<Self, Error>)
        ensures
            r is Ok <==> Self::complete(vars, host),
            match r {
                Ok(env) => {
                    &&& Some(env.home@) == vars.value(home_var(host))
                    &&& Some(env.path@) == vars.value("PATH"@)
                    &&& env.term.deep_view() == vars.value("TERM"@)
                    &&& env.ssh_auth_sock.deep_view() == vars.value("SSH_AUTH_SOCK"@)
                    &&& env.windows is Some <==> host.windows()
                    &&& env.windows matches Some(w) ==> {
                        &&& Some(w.system_root@) == vars.value("SYSTEMROOT"@)
                        &&& Some(w.os@) == vars.value("OS"@)
                        &&& Some(w.java_home@) == vars.value("JAVA_HOME"@)
                    }
                },
                Err(e) => {
                    if vars.value(home_var(host)) is None {
                        vars.lookup(home_var(host)) == Err::<String, VarError>(e->HomeNotSet_0)
                            && e is HomeNotSet
                    } else if vars.value("PATH"@) is None {
                        vars.lookup("PATH"@) == Err::<String, VarError>(e->PathNotSet_0)
                            && e is PathNotSet
                    } else if vars.value("SYSTEMROOT"@) is None {
                        vars.lookup("SYSTEMROOT"@) == Err::<String, VarError>(
                            e->SystemRootNotSet_0,
                        ) && e is SystemRootNotSet
                    } else if vars.value("OS"@) is None {
                        vars.lookup("OS"@) == Err::<String, VarError>(e->OsNotSet_0) && e is OsNotSet
                    } else {
                        vars.lookup("JAVA_HOME"@) == Err::<String, VarError>(e->JavaHomeNotSet_0)
                            && e is JavaHomeNotSet
                    }
                },
            },
    {
        let home = match vars.var(if host.is_windows() {
            "USERPROFILE"
        } else {
            "HOME"
        }) {
            Ok(s) => s,
            Err(e) => {
                return Err(Error::HomeNotSet(e));
            },
        };
        let path = match vars.var("PATH") {
            Ok(s) => s,
            Err(e) => {
                return Err(Error::PathNotSet(e));
            },
        };
        let windows = if host.is_windows() {
            let system_root = match vars.var("SYSTEMROOT") {
                Ok(s) => s,
                Err(e) => {
                    return Err(Error::SystemRootNotSet(e));
                },
            };
            let os = match vars.var("OS") {
                Ok(s) => s,
                Err(e) => {
                    return Err(Error::OsNotSet(e));
                },
            };
            let java_home = match vars.var("JAVA_HOME") {
                Ok(s) => s,
                Err(e) => {
                    return Err(Error::JavaHomeNotSet(e));
                },
            };
            Some(WindowsEnv { system_root, os, java_home })
        } else {
            None
        };
        let term = vars.var_ok("TERM");
        let ssh_auth_sock = vars.var_ok("SSH_AUTH_SOCK");
        Ok(Self { home, path, term, ssh_auth_sock, windows })
    }

    pub fn path(&self) -> (r: &str)
        ensures
            r@ == self.path@,
    {
        self.path.as_str()
    }

    /// The same variables with `path` in front of the search path.
    pub fn prepend_to_path(self, path: &str) -> (r: Self)
        ensures
            r.path@ == path@ + ":"@ + self.path@,
            r.home == self.home,
            r.term == self.term,
            r.ssh_auth_sock == self.ssh_auth_sock,
            r.windows == self.windows,
    {
        let new_path = path.to_owned().concat(":").concat(self.path.as_str());
        Self {
            home: self.home,
            path: new_path,
            term: self.term,
            ssh_auth_sock: self.ssh_auth_sock,
            windows: self.windows,
        }
    }

    /// The variables as names and values, in the order in which the
    /// commands get them.
    pub open spec fn explicit(&self) -> Seq<(Seq<char>, Seq<char>)> {
        let base = match self.windows {
            Some(w) => seq![
                ("USERPROFILE"@, self.home@),
                ("PATH"@, self.path@),
                ("SYSTEMROOT"@, w.system_root@),
                ("OS"@, w.os@),
                ("JAVA_HOME"@, w.java_home@),
            ],
            None => seq![("HOME"@, self.home@), ("PATH"@, self.path@)],
        };
        let with_term = match self.term {
            Some(term) => base.push(("TERM"@, term@)),
            None => base,
        };
        match self.ssh_auth_sock {
            Some(sock) => with_term.push(("SSH_AUTH_SOCK"@, sock@)),
            None => with_term,
        }
    }

    /// The variables as names and values.
    pub fn explicit_vars(&self) -> (r: Vec<(String, String)>)
        ensures
            r.deep_view() == self.explicit(),
    {
        let mut env: Vec<(String, String)> = Vec::new();
        match &self.windows {
            Some(w) => {
                env.push(("USERPROFILE".to_owned(), self.home.clone()));
                env.push(("PATH".to_owned(), self.path.clone()));
                env.push(("SYSTEMROOT".to_owned(), w.system_root.clone()));
                env.push(("OS".to_owned(), w.os.clone()));
                env.push(("JAVA_HOME".to_owned(), w.java_home.clone()));
            },
            None => {
                env.push(("HOME".to_owned(), self.home.clone()));
                env.push(("PATH".to_owned(), self.path.clone()));
            },
        }
        if let Some(term) = &self.term {
            env.push(("TERM".to_owned(), term.clone()));
        }
        if let Some(sock) = &self.ssh_auth_sock {
            env.push(("SSH_AUTH_SOCK".to_owned(), sock.clone()));
        }
        env
    }
}

impl ExplicitEnv for Env {
    fn explicit_env(&self) -> (r: Vec<(String, String)>)
        ensures
            r.deep_view() == self.explicit(),
    {
        self.explicit_vars()
    }
}

} // verus!
