//! The choices that the user makes on the command line.

use vstd::prelude::*;
use vstd::string::*;

verus! {

/// How much the tool and the tools it runs should say.
#[derive(Clone, Copy, Debug, PartialEq, Eq, Structural)]
pub enum NoiseLevel {
    Polite,
    LoudAndProud,
    FranklyQuitePedantic,
}

/// Whether the tool may ask the user questions.
#[derive(Clone, Copy, Debug, PartialEq, Eq, Structural)]
pub enum NonInteractive {
    No,
    Yes,
}

impl NonInteractive {
    pub fn yes(self) -> (r: bool)
        ensures
            r == (self == NonInteractive::Yes),
    {
        match self {
            NonInteractive::Yes => true,
            NonInteractive::No => false,
        }
    }

    pub fn no(self) -> (r: bool)
        ensures
            r == (self == NonInteractive::No),
    {
        !self.yes()
    }
}

/// Whether the developer tools are left alone.
#[derive(Clone, Copy, Debug, PartialEq, Eq, Structural)]
pub enum SkipDevTools {
    No,
    Yes,
}

impl SkipDevTools {
    pub fn yes(self) -> (r: bool)
        ensures
            r == (self == SkipDevTools::Yes),
    {
        match self {
            SkipDevTools::Yes => true,
            SkipDevTools::No => false,
        }
    }

    pub fn no(self) -> (r: bool)
        ensures
            r == (self == SkipDevTools::No),
    {
        !self.yes()
    }
}

/// Whether dependencies are installed again though they are there.
#[derive(Clone, Copy, Debug, PartialEq, Eq, Structural)]
pub enum ReinstallDeps {
    No,
    Yes,
}

impl ReinstallDeps {
    pub fn yes(self) -> (r: bool)
        ensures
            r == (self == ReinstallDeps::Yes),
    {
        match self {
            ReinstallDeps::Yes => true,
            ReinstallDeps::No => false,
        }
    }

    pub fn no(self) -> (r: bool)
        ensures
            r == (self == ReinstallDeps::No),
    {
        !self.yes()
    }
}

/// Whether colours are used though the output is no terminal.
#[derive(Clone, Copy, Debug, PartialEq, Eq, Structural)]
pub enum ForceColor {
    No,
    Yes,
}

impl ForceColor {
    pub fn from_bool(flag: bool) -> (r: Self)
        ensures
            r == if flag {
                ForceColor::Yes
            } else {
                ForceColor::No
            },
    {
        if flag {
            ForceColor::Yes
        } else {
            ForceColor::No
        }
    }
}

/// What a build is optimised for.
#[derive(Clone, Copy, Debug, PartialEq, Eq, Structural)]
pub enum Profile {
    Debug,
    Release,
}

impl Profile {
    pub open spec fn text(self) -> Seq<char> {
        match self {
            Profile::Debug => "debug"@,
            Profile::Release => "release"@,
        }
    }

    pub fn as_str(&self) -> (r: &'static str)
        ensures
            r@ == self.text(),
    {
        match self {
            Profile::Debug => "debug",
            Profile::Release => "release",
        }
    }

    pub fn debug(self) -> (r: bool)
        ensures
            r == (self == Profile::Debug),
    {
        match self {
            Profile::Debug => true,
            Profile::Release => false,
        }
    }

    pub fn release(self) -> (r: bool)
        ensures
            r == (self == Profile::Release),
    {
        !self.debug()
    }
}

/// The least grave log line that is shown.
#[derive(Clone, Copy, Debug, PartialEq, Eq, Structural)]
pub enum FilterLevel {
    Error,
    Warn,
    Info,
    Debug,
    Verbose,
}

impl FilterLevel {
    /// The letter by which `logcat` knows the level.
    pub open spec fn logcat_text(self) -> Seq<char> {
        match self {
            FilterLevel::Error => "E"@,
            FilterLevel::Warn => "W"@,
            FilterLevel::Info => "I"@,
            FilterLevel::Debug => "D"@,
            FilterLevel::Verbose => "V"@,
        }
    }

    pub fn logcat(&self) -> (r: &'static str)
        ensures
            r@ == self.logcat_text(),
    {
        match self {
            FilterLevel::Error => "E",
            FilterLevel::Warn => "W",
            FilterLevel::Info => "I",
            FilterLevel::Debug => "D",
            FilterLevel::Verbose => "V",
        }
    }
}

} // verus!
