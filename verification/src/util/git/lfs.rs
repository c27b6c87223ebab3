//! Git LFS, which template packs may need.

use crate::os::Host;
use crate::util::command::{Command, CommandView};
use vstd::prelude::*;
use vstd::string::*;

verus! {

/// Why Git LFS could not be made ready.
#[derive(Debug)]
pub enum Error {
    /// The search for `git-lfs` failed; the text says why.
    CheckFailed(String),
    InstallNeeded,
    /// The package manager of macOS failed; the text says why.
    BrewFailed(String),
    InstallFailed(String),
}

impl Error {
    /// The sentence that describes the error.
    pub open spec fn message(&self) -> Seq<char> {
        match self {
            Error::CheckFailed(err) => "Failed to check if `git-lfs` is present: "@ + err@,
            Error::InstallNeeded => "Git LFS isn't installed; please install it and try again"@,
            Error::BrewFailed(err) => err@,
            Error::InstallFailed(err) => "Failed to run `git lfs install`: "@ + err@,
        }
    }

    pub fn to_string(&self) -> (r: String)
        ensures
            r@ == self.message(),
    {
        match self {
            Error::CheckFailed(err) => {
                "Failed to check if `git-lfs` is present: ".to_owned().concat(err.as_str())
            },
            Error::InstallNeeded => {
                "Git LFS isn't installed; please install it and try again".to_owned()
            },
            Error::BrewFailed(err) => err.clone(),
            Error::InstallFailed(err) => {
                "Failed to run `git lfs install`: ".to_owned().concat(err.as_str())
            },
        }
    }
}

/// The command that sets Git LFS up for the user.
pub fn install_command() -> (r: Command)
    ensures
        r@ == CommandView::impure("git"@).with_arg("lfs"@).with_arg("install"@),
{
    Command::impure("git").with_arg("lfs").with_arg("install")
}

/// The command that sets Git LFS up, if Git LFS is there. On macOS the
/// package manager has installed it by now if it was missing, so
/// `present` is not looked at; elsewhere it is what the search for
/// `git-lfs` gave, and a missing Git LFS is for the user to install.
pub fn ensure_present(host: Host, present: Result<bool, String>) -> (r: Result<Command, Error>)
    ensures
        if host == Host::MacOs {
            r matches Ok(_)
        } else {
            match present {
                Err(cause) => r matches Err(Error::CheckFailed(c)) && c == cause,
                Ok(false) => r matches Err(Error::InstallNeeded),
                Ok(true) => r matches Ok(_),
            }
        },
        r matches Ok(command) ==> command@ == CommandView::impure("git"@).with_arg(
            "lfs"@,
        ).with_arg("install"@),
{
    if !host.is_macos() {
        match present {
            Err(cause) => {
                return Err(Error::CheckFailed(cause));
            },
            Ok(found) => {
                if !found {
                    return Err(Error::InstallNeeded);
                }
            },
        }
    }
    Ok(install_command())
}

} // verus!
