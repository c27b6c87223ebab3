//! What the tool tells its user when something went wrong.

use crate::opts::{NoiseLevel, NonInteractive};
use vstd::prelude::*;
use vstd::string::*;

verus! {

/// The flags that every command of the tool takes.
#[derive(Clone, Copy, Debug, PartialEq, Eq, Structural)]
pub struct GlobalFlags {
    pub noise_level: NoiseLevel,
    pub non_interactive: NonInteractive,
}

/// How grave a report is.
#[derive(Clone, Copy, Debug, PartialEq, Eq, Structural)]
pub enum Label {
    /// Something failed.
    Error,
    /// The user has to do something before the tool can go on.
    ActionRequest,
}

/// A message for the user: a headline and what lies behind it.
#[derive(Debug)]
pub struct Report {
    pub label: Label,
    pub msg: String,
    pub details: String,
}

/// A `Report` with its texts as sequences of characters.
pub struct ReportView {
    pub label: Label,
    pub msg: Seq<char>,
    pub details: Seq<char>,
}

impl View for Report {
    type V = ReportView;

    open spec fn view(&self) -> ReportView {
        ReportView { label: self.label, msg: self.msg@, details: self.details@ }
    }
}

impl Report {
    pub fn error(msg: String, details: String) -> (r: Self)
        ensures
            r@ == (ReportView { label: Label::Error, msg: msg@, details: details@ }),
    {
        Self { label: Label::Error, msg, details }
    }

    pub fn copy(&self) -> (r: Self)
        ensures
            r@ == self@,
    {
        Self { label: self.label, msg: self.msg.clone(), details: self.details.clone() }
    }

    pub fn action_request(msg: String, details: String) -> (r: Self)
        ensures
            r@ == (ReportView { label: Label::ActionRequest, msg: msg@, details: details@ }),
    {
        Self { label: Label::ActionRequest, msg, details }
    }
}

} // verus!
