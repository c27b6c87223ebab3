//! The kinds of Android device that an app is built for.

use vstd::prelude::*;
use vstd::string::*;

verus! {

/// One kind of device: the triple that the compiler knows it by, and the
/// names that the Android tools give to its architecture.
#[derive(Clone, Copy, Debug)]
pub struct Target<'a> {
    pub triple: &'a str,
    pub abi: &'a str,
    pub arch: &'a str,
}

} // verus!
