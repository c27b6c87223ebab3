//! The section on the tool itself, the operating system and the
//! compiler.

use super::{item_of, ItemView, Section, SectionView};
use crate::os::Host;
use crate::text::{debug_str, debug_text};
use crate::util::rust_version::{RustVersion, RustVersionError};
use crate::util::{format_commit_msg};
use vstd::prelude::*;
use vstd::string::*;

verus! {

/// The line on the operating system.
pub fn check_os(version: Result<String, String>) -> (r: Result<String, String>)
    ensures
        item_of(r) == match version {
            Ok(v) => ItemView::Victory("macOS v"@ + v@),
            Err(err) => ItemView::Failure(err@),
        },
{
    match version {
        Ok(v) => Ok("macOS v".to_owned().concat(v.as_str())),
        Err(err) => Err(err),
    }
}

/// The line on the compiler.
pub open spec fn rust_item(version: Result<RustVersion, RustVersionError>, host: Host)
    -> ItemView {
    match version {
        Err(err) => ItemView::Failure(err@.message()),
        Ok(version) => if version@.valid(host) {
            ItemView::Victory("rustc v"@ + version@.text())
        } else {
            ItemView::Failure(
                "iOS linking is broken on rustc v"@ + version@.text()
                    + "; please update to 1.49.0 or later"@,
            )
        },
    }
}

pub fn check_rust(version: Result<RustVersion, RustVersionError>, host: Host) -> (r: Result<
    String,
    String,
>)
    ensures
        item_of(r) == rust_item(version, host),
{
    match version {
        Err(err) => Err(err.to_string()),
        Ok(version) => if version.valid(host) {
            Ok("rustc v".to_owned().concat(version.to_string().as_str()))
        } else {
            Err(
                "iOS linking is broken on rustc v".to_owned().concat(
                    version.to_string().as_str(),
                ).concat("; please update to 1.49.0 or later"),
            )
        },
    }
}

/// What is known of the installation of the tool.
pub struct Installation {
    /// Which commits the installation holds, if the installation says;
    /// or why that could not be read.
    pub commit_msg: Result<Option<String>, String>,
    /// Whether the directory of the installation is there.
    pub exists: bool,
    /// The directory, as it is.
    pub install_dir: String,
    /// The directory with the home directory written as `~`.
    pub contracted: String,
}

/// The line on the commits of an installation.
pub open spec fn commit_item(commit_msg: Result<Option<String>, String>) -> ItemView {
    match commit_msg {
        Ok(Some(msg)) => ItemView::Victory("Contains commits up to "@ + debug_text(msg@)),
        Ok(None) => ItemView::Victory("Installed commit message isn't present"@),
        Err(err) => ItemView::Failure(err@),
    }
}

/// The line on the directory of an installation.
pub open spec fn install_item(installation: Installation) -> ItemView {
    if installation.exists {
        ItemView::Victory("Installed at "@ + debug_text(installation.contracted@))
    } else {
        ItemView::Failure(
            "The cargo-mobile installation directory is missing! Checked at "@ + debug_text(
                installation.install_dir@,
            ),
        )
    }
}

/// The section on the tool: its installation, or why no home directory
/// was found for one; then the operating system and the compiler.
pub fn check(
    version_short: &str,
    installation: Result<Installation, String>,
    os: Result<String, String>,
    rust: Result<String, String>,
) -> (r: Section)
    ensures
        r@.title == "cargo-mobile "@ + version_short@,
        r@.items == (match installation {
            Ok(installation) => seq![
                commit_item(installation.commit_msg),
                install_item(installation),
            ],
            Err(err) => seq![ItemView::Failure(err@)],
        }) + seq![item_of(os), item_of(rust)],
{
    let section = Section::new("cargo-mobile ".to_owned().concat(version_short));
    let section = match installation {
        Ok(installation) => {
            let commit = match installation.commit_msg {
                Ok(Some(msg)) => Ok(format_commit_msg(msg)),
                Ok(None) => Ok("Installed commit message isn't present".to_owned()),
                Err(err) => Err(err),
            };
            let dir = if installation.exists {
                Ok(
                    "Installed at ".to_owned().concat(
                        debug_str(installation.contracted.as_str()).as_str(),
                    ),
                )
            } else {
                Err(
                    "The cargo-mobile installation directory is missing! Checked at ".to_owned().concat(
                        debug_str(installation.install_dir.as_str()).as_str(),
                    ),
                )
            };
            section.with_item(commit).with_item(dir)
        },
        Err(err) => section.with_failure(err),
    };
    let r = section.with_item(os).with_item(rust);
    r
}

} // verus!
