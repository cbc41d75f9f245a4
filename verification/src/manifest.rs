//! Packages of the task crawler: a directory with a manifest.
use vstd::prelude::*;
use vstd::string::*;
use crate::failure::Result;
use crate::paths::{adjoin, path_joined};
use crate::task::{parsed_url, Task, Work};

verus! {

/// What a package says of itself: its name, the page to start from, and
/// its main script.
#[derive(Debug, PartialEq, Eq)]
pub struct Manifest {
    pub name: String,
    pub url: String,
    pub main: String,
}

impl Manifest {
    pub fn name(&self) -> (r: &str)
        ensures
            r@ == self.name@,
    {
        self.name.as_str()
    }

    pub fn url(&self) -> (r: &str)
        ensures
            r@ == self.url@,
    {
        self.url.as_str()
    }

    pub fn main(&self) -> (r: &str)
        ensures
            r@ == self.main@,
    {
        self.main.as_str()
    }
}

/// A package: its directory and its manifest.
#[derive(Debug, PartialEq, Eq)]
pub struct Package {
    pub root: String,
    pub manifest: Manifest,
}

impl Package {
    pub fn root(&self) -> (r: &str)
        ensures
            r@ == self.root@,
    {
        self.root.as_str()
    }

    pub fn manifest(&self) -> (r: &Manifest)
        ensures
            *r == self.manifest,
    {
        &self.manifest
    }

    /// The path of an asset of the package: `path` adjoined to its
    /// directory.
    pub fn resolve_asset(&self, path: &str) -> (r: String)
        ensures
            r@ == path_joined(self.root@, path@),
    {
        adjoin(self.root.as_str(), path)
    }

    /// The task that the package stands for: its start page, its main
    /// script, its directory. Fails where the start page is no absolute URL.
    pub fn task(&self) -> (r: Result<Task>)
        ensures
            match r {
                Ok(task) => parsed_url(self.manifest.url@) == Some(task.url@) && task.root@
                    == self.root@ && (task.work matches Work::Path(p) && p@ == self.manifest.main@),
                Err(e) => parsed_url(self.manifest.url@) is None && e.kind is Url,
            },
    {
        Task::new(self.root.as_str(), self.manifest.url.as_str(), Work::path(self.manifest.main.as_str()))
    }
}

} // verus!
