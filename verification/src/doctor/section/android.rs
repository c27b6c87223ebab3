//! The section on the Android SDK and NDK.

use super::{item_of, ItemView, Section, SectionView};
use crate::text::{debug_str, debug_text};
use vstd::prelude::*;
use vstd::string::*;

verus! {

/// What is known of one of the two kits: its version written out, or why
/// the version could not be told; and the directory it is installed in,
/// with the home directory written as `~`.
pub struct Kit {
    pub version: Result<String, String>,
    pub installed_at: String,
}

/// The line on the SDK.
pub open spec fn sdk_item(kit: Kit) -> ItemView {
    match kit.version {
        Ok(version) => ItemView::Victory(
            "SDK v"@ + version@ + " installed at "@ + debug_text(kit.installed_at@),
        ),
        Err(err) => ItemView::Failure("Failed to get SDK version: "@ + err@),
    }
}

/// The line on the NDK.
pub open spec fn ndk_item(kit: Kit) -> ItemView {
    match kit.version {
        Ok(version) => ItemView::Victory(
            "NDK "@ + version@ + " installed at "@ + debug_text(kit.installed_at@),
        ),
        Err(err) => ItemView::Failure("Failed to get NDK version: "@ + err@),
    }
}

fn kit_line(kit: &Kit, found: &str, failed: &str) -> (r: Result<String, String>)
    ensures
        item_of(r) == match kit.version {
            Ok(version) => ItemView::Victory(
                found@ + version@ + " installed at "@ + debug_text(kit.installed_at@),
            ),
            Err(err) => ItemView::Failure(failed@ + err@),
        },
{
    match &kit.version {
        Ok(version) => Ok(
            found.to_owned().concat(version.as_str()).concat(" installed at ").concat(
                debug_str(kit.installed_at.as_str()).as_str(),
            ),
        ),
        Err(err) => Err(failed.to_owned().concat(err.as_str())),
    }
}

/// The section on the Android tools: a line for each kit, or the reason
/// why the tools cannot be used at all.
pub fn check(env: Result<(Kit, Kit), String>) -> (r: Section)
    ensures
        r@.title == "Android developer tools"@,
        r@.items == match env {
            Ok((sdk, ndk)) => seq![sdk_item(sdk), ndk_item(ndk)],
            Err(err) => seq![ItemView::Failure(err@)],
        },
{
    let section = Section::new("Android developer tools".to_owned());
    let ghost given = env;
    let section = match env {
        Ok((sdk, ndk)) => section.with_item(
            kit_line(&sdk, "SDK v", "Failed to get SDK version: "),
        ).with_item(kit_line(&ndk, "NDK ", "Failed to get NDK version: ")),
        Err(err) => section.with_failure(err),
    };
    proof {
        match given {
            Ok((sdk, ndk)) => {
            },
            Err(err) => {
            },
        }
    }
    section
}

} // verus!
