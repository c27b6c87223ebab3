//! The section on the devices that are connected.

use super::{ItemView, Section, SectionView};
use vstd::prelude::*;
use vstd::string::*;

verus! {

/// The items that a list of devices gives: a victory for each device, or
/// a failure that says which list could not be had.
pub open spec fn list_items(list: Result<Vec<String>, String>, platform: Seq<char>) -> Seq<
    ItemView,
> {
    match list {
        Ok(devices) => devices.deep_view().map_values(|d: Seq<char>| ItemView::Victory(d)),
        Err(err) => seq![
            ItemView::Failure("Failed to get "@ + platform + " device list: "@ + err@),
        ],
    }
}

/// The items of the section, before the line that stands for no device.
pub open spec fn device_items(
    ios: Option<Result<Vec<String>, String>>,
    android: Option<Result<Vec<String>, String>>,
) -> Seq<ItemView> {
    (match ios {
        Some(list) => list_items(list, "iOS"@),
        None => Seq::<ItemView>::empty(),
    }) + (match android {
        Some(list) => list_items(list, "Android"@),
        None => Seq::<ItemView>::empty(),
    })
}

fn with_list(section: Section, list: Result<Vec<String>, String>, platform: &str) -> (r: Section)
    ensures
        r@.title == section@.title,
        r@.items == section@.items + list_items(list, platform@),
{
    match list {
        Ok(devices) => section.with_victories(devices),
        Err(err) => {
            let r = section.with_failure(
                "Failed to get ".to_owned().concat(platform).concat(" device list: ").concat(
                    err.as_str(),
                ),
            );
            r
        },
    }
}

/// The section on the connected devices. `ios` is the list of iOS
/// devices, which only macOS has; `android` is the list of Android
/// devices, which is there if the Android tools are. A section that
/// would be empty says so.
pub fn check(
    ios: Option<Result<Vec<String>, String>>,
    android: Option<Result<Vec<String>, String>>,
) -> (r: Section)
    ensures
        r@.title == "Connected devices"@,
        r@.items == if device_items(ios, android).len() == 0 {
            seq![ItemView::Victory("No connected devices were found"@)]
        } else {
            device_items(ios, android)
        },
{
    let section = Section::new("Connected devices".to_owned());
    let section = match ios {
        Some(list) => with_list(section, list, "iOS"),
        None => section,
    };
    let section = match android {
        Some(list) => with_list(section, list, "Android"),
        None => section,
    };
    if section.is_empty() {
        let r = section.with_victory("No connected devices were found".to_owned());
        r
    } else {
        section
    }
}

} // verus!
