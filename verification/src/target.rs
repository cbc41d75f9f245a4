//! A target description bound to its environment.
use vstd::prelude::*;
use vstd::string::*;
use std::sync::Arc;
use crate::context::{Context, ParentOrRoot, RootContext};
use crate::descriptions::{builds, target_base, TargetDescription};
use crate::environment::Environment;
use crate::error::CrawlResult;
use crate::package::Package;
use crate::shared::share;
use crate::text::str_eq;
use crate::value::Args;
use crate::work::{run_of, Fixpoint, Work, Worker};

verus! {

#[derive(Debug)]
pub struct Target {
    pub e: Arc<Environment>,
    pub p: String,
    pub d: Arc<TargetDescription>,
}

impl Target {
    /// The target of `description` that lives under `path`.
    pub fn new(path: &str, env: Arc<Environment>, description: TargetDescription) -> (r: Target)
        ensures
            r.p@ == path@,
            r.e == env,
            *r.d == description,
    {
        Target { e: env, p: String::from_str(path), d: Arc::new(description) }
    }

    pub fn env(&self) -> (r: &Environment)
        ensures
            *r == *self.e,
    {
        &self.e
    }

    pub fn path(&self) -> (r: &str)
        ensures
            r@ == self.p@,
    {
        self.p.as_str()
    }

    pub fn description(&self) -> (r: &TargetDescription)
        ensures
            *r == *self.d,
    {
        &self.d
    }
}

/// The formats in which a description file can be written.
#[derive(Debug, Clone, Copy, PartialEq, Eq, Structural)]
pub enum DescriptionFormat {
    Json,
    Yaml,
}

/// The format that a file with the given extension is read in: JSON for
/// `json`, YAML for `yaml` and `yml`, none for any other.
pub open spec fn spec_format_of(extension: Seq<char>) -> Option<DescriptionFormat> {
    if extension == "json"@ {
        Some(DescriptionFormat::Json)
    } else if extension == "yaml"@ || extension == "yml"@ {
        Some(DescriptionFormat::Yaml)
    } else {
        None
    }
}

/// The format that a description file with the given extension is read in.
pub fn format_of(extension: &str) -> (r: Option<DescriptionFormat>)
    ensures
        r == spec_format_of(extension@),
{
    if str_eq(extension, "json") {
        Some(DescriptionFormat::Json)
    } else if str_eq(extension, "yaml") || str_eq(extension, "yml") {
        Some(DescriptionFormat::Yaml)
    } else {
        None
    }
}

/// A target that is ready to run: its first unit.
#[derive(Debug)]
pub struct TargetRunner {
    pub work: Work<Package>,
}

impl Target {
    /// Compiles the target for an invocation with the arguments `args`:
    /// makes the root of a new tree of contexts and builds the first unit
    /// right under it. A failure of the compilation is the failure of the
    /// build.
    pub fn build(self, args: Args) -> (r: CrawlResult<TargetRunner>)
        ensures
            exists|root: RootContext|
                root.inner.target == self && root.inner.args == args && builds(
                    self.d.work,
                    target_base(root),
                    match r {
                        Ok(runner) => Ok(runner.work),
                        Err(e) => Err(e),
                    },
                ),
    {
        let desc = share(&self.d);
        let root = RootContext::new(self, args);
        let ctx = Context::new(ParentOrRoot::Root(root), None, None);
        assert(ctx@ == target_base(root));
        match desc.work.build(&ctx) {
            Ok(work) => Ok(TargetRunner { work }),
            Err(e) => Err(e),
        }
    }
}

impl TargetRunner {
    /// Starts the run that takes the first unit of the target to the end.
    pub fn run(self) -> (r: Fixpoint<Package>)
        ensures
            r@ == run_of(seq![self.work]),
    {
        let mut units: Vec<Work<Package>> = Vec::new();
        units.push(self.work);
        assert(units@ == seq![self.work]);
        Worker::new().run(units)
    }
}

impl Clone for Target {
    fn clone(&self) -> (r: Target)
        ensures
            r == *self,
    {
        Target { e: share(&self.e), p: self.p.clone(), d: share(&self.d) }
    }
}

} // verus!
