//! The health report: what the tool finds of the tools it needs.

pub mod report;
pub mod section;

use self::section::{Section, SectionView};
use crate::env;
use crate::os::Host;
use vstd::prelude::*;
use vstd::string::*;

verus! {

/// An error that stops the health report itself.
#[derive(Debug)]
pub enum Unrecoverable {
    EnvInitFailed(env::Error),
    /// A path could not be written with `~` for the home directory; the
    /// text says why.
    ContractHomeFailed(String),
}

impl Unrecoverable {
    /// The sentence that describes the error.
    pub open spec fn message(&self) -> Seq<char> {
        match self {
            Unrecoverable::EnvInitFailed(err) => err.message(),
            Unrecoverable::ContractHomeFailed(err) => "Failed to prettify path: "@ + err@,
        }
    }

    pub fn to_string(&self) -> (r: String)
        ensures
            r@ == self.message(),
    {
        match self {
            Unrecoverable::EnvInitFailed(err) => err.to_string(),
            Unrecoverable::ContractHomeFailed(err) => {
                "Failed to prettify path: ".to_owned().concat(err.as_str())
            },
        }
    }
}

/// The health report.
#[derive(Debug)]
pub struct Doctor {
    pub sections: Vec<Section>,
}

impl Doctor {
    /// Puts the report together from its sections: the tool itself, the
    /// Apple tools where the host has them, the Android tools, and the
    /// devices.
    pub fn check(
        cargo_mobile: Section,
        apple: Option<Section>,
        android: Section,
        device_list: Section,
    ) -> (r: Self)
        ensures
            r.sections@ == match apple {
                Some(apple) => seq![cargo_mobile, apple, android, device_list],
                None => seq![cargo_mobile, android, device_list],
            },
    {
        let mut sections: Vec<Section> = Vec::new();
        sections.push(cargo_mobile);
        match apple {
            Some(apple) => {
                sections.push(apple);
            },
            None => {},
        }
        sections.push(android);
        sections.push(device_list);
        Self { sections }
    }
}

} // verus!
