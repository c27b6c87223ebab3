pub mod bundletool;
pub mod config;
pub mod device;
pub mod env;
pub mod jnilibs;
pub mod ndk;
pub mod project;
pub mod target;

use vstd::prelude::*;

verus! {

/// The name of the platform, and of its table in the configuration file.
pub const NAME: &'static str = "android";

} // verus!
