//! The machine that the tool runs on.

pub mod linux;
pub mod windows;

use crate::util::rust_version::RunAndSearchError;
use vstd::prelude::*;

verus! {

/// The kind of machine that the tool was built for. What differs between
/// them is decided by a value of this type, handed in by the program.
#[derive(Clone, Copy, Debug, PartialEq, Eq, Structural)]
pub enum Host {
    MacOs,
    Linux,
    /// Windows with 32-bit pointers.
    Windows32,
    /// Windows with 64-bit pointers.
    Windows64,
}

impl Host {
    pub open spec fn windows(self) -> bool {
        self == Host::Windows32 || self == Host::Windows64
    }

    pub fn is_windows(&self) -> (r: bool)
        ensures
            r == self.windows(),
    {
        match self {
            Host::Windows32 | Host::Windows64 => true,
            _ => false,
        }
    }

    pub fn is_macos(&self) -> (r: bool)
        ensures
            r == (*self == Host::MacOs),
    {
        match self {
            Host::MacOs => true,
            _ => false,
        }
    }
}

/// The name and version of the operating system.
#[derive(Debug)]
pub struct Info {
    pub name: String,
    pub version: String,
}

impl Info {
    /// What is known of Windows from what `ver` printed.
    pub fn check(output: &str) -> (r: Result<Self, RunAndSearchError>)
        ensures
            windows::info::read_from(r, output@),
    {
        windows::info::check(output)
    }
}

} // verus!
