//! What is known of the app whatever the platform.

pub mod domain;

use crate::text::join;
use crate::util::case::{snake_case, to_snake_case};
use crate::util::path::{
    begins, joined, prefix_path, unprefix_path, PartView, PathNotPrefixed, PathParts,
};
use crate::util::{reverse_domain, reversed_domain};
use vstd::prelude::*;
use vstd::string::*;

verus! {

/// The key of the app's table in the configuration file.
pub const KEY: &'static str = "app";

/// The app's table of the configuration file, as it is written.
#[derive(Debug)]
pub struct Raw {
    pub name: String,
    pub domain: String,
    pub asset_dir: Option<String>,
}

/// An app: where its sources lie, and how it is called.
#[derive(Debug)]
pub struct App {
    pub root_dir: PathParts,
    pub name: String,
    pub domain: String,
    /// Where the assets lie, seen from the root directory.
    pub asset_dir: PathParts,
}

impl App {
    /// Whether two apps have the same directories and names.
    pub open spec fn same(&self, other: App) -> bool {
        &&& self.root_dir@ == other.root_dir@
        &&& self.name@ == other.name@
        &&& self.domain@ == other.domain@
        &&& self.asset_dir@ == other.asset_dir@
    }

    pub fn root_dir(&self) -> (r: &PathParts)
        ensures
            r@ == self.root_dir@,
    {
        &self.root_dir
    }

    pub fn name(&self) -> (r: &str)
        ensures
            r@ == self.name@,
    {
        self.name.as_str()
    }

    /// The name in snake case, as libraries are called.
    pub fn name_snake(&self) -> (r: String)
        ensures
            r@ == snake_case(self.name@),
    {
        to_snake_case(self.name.as_str())
    }

    /// The domain with its labels in reverse order, as packages are
    /// called.
    pub fn reverse_domain(&self) -> (r: String)
        ensures
            r@ == reversed_domain(self.domain@),
    {
        reverse_domain(self.domain.as_str())
    }

    /// `path` seen from the root directory.
    pub fn prefix_path(&self, path: &PathParts) -> (r: PathParts)
        ensures
            r@ == joined(self.root_dir@, path@),
    {
        prefix_path(&self.root_dir, path)
    }

    /// What follows the root directory in `path`.
    pub fn unprefix_path(&self, path: &PathParts) -> (r: Result<PathParts, PathNotPrefixed>)
        ensures
            match r {
                Ok(rest) => begins(self.root_dir@, path@) && rest@ == path@.skip(
                    self.root_dir@.len() as int,
                ),
                Err(e) => !begins(self.root_dir@, path@) && e.path@ == path@ && e.prefix@
                    == self.root_dir@,
            },
    {
        unprefix_path(&self.root_dir, path)
    }

    /// Where the assets lie.
    pub fn asset_dir(&self) -> (r: PathParts)
        ensures
            r@ == joined(self.root_dir@, self.asset_dir@),
    {
        self.root_dir.join(&self.asset_dir)
    }

    pub fn copy(&self) -> (r: App)
        ensures
            r.same(*self),
    {
        App {
            root_dir: self.root_dir.copy(),
            name: self.name.clone(),
            domain: self.domain.clone(),
            asset_dir: self.asset_dir.copy(),
        }
    }
}

} // verus!
