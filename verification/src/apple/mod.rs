pub mod cli;
pub mod config;
pub mod deps;
pub mod project;
pub mod version_number;

use vstd::prelude::*;

verus! {

/// The name of the platform, and of its table in the configuration file.
pub const NAME: &'static str = "apple";

} // verus!
