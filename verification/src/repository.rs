//! The targets of an environment, by name.
use vstd::prelude::*;
use vstd::string::*;
use std::sync::Arc;
use crate::context::RootContext;
use crate::descriptions::{builds, target_base};
use crate::environment::Environment;
use crate::error::CrawlResult;
use crate::package::Package;
use crate::target::Target;
use crate::text::str_eq;
use crate::value::Args;
use crate::work::{run_of, Fixpoint, Work};

verus! {

/// The targets that can be run in one environment.
#[derive(Debug)]
pub struct Engine {
    pub targets: Vec<Target>,
    pub env: Arc<Environment>,
}

/// The position of the first target from `from` on that is named `name`.
pub open spec fn first_target(targets: Seq<Target>, name: Seq<char>, from: int) -> Option<int>
    decreases targets.len() - from,
{
    if from < 0 || from >= targets.len() {
        None
    } else if targets[from].d.name@ == name {
        Some(from)
    } else {
        first_target(targets, name, from + 1)
    }
}

impl Engine {
    pub fn new(env: Arc<Environment>) -> (r: Engine)
        ensures
            r.env == env,
            r.targets@ == Seq::<Target>::empty(),
    {
        Engine { targets: Vec::new(), env }
    }

    pub fn add_target(&mut self, target: Target) -> (r: &mut Self)
        ensures
            r.targets@ == old(self).targets@.push(target),
            r.env == old(self).env,
            *final(self) == *final(r),
    {
        self.targets.push(target);
        self
    }

    /// The position of the first target that is named `name`.
    pub fn find(&self, name: &str) -> (r: Option<usize>)
        ensures
            match r {
                Some(i) => first_target(self.targets@, name@, 0) == Some(i as int) && i
                    < self.targets.len(),
                None => first_target(self.targets@, name@, 0) is None,
            },
    {
        let mut i: usize = 0;
        while i < self.targets.len()
            invariant
                i <= self.targets.len(),
                first_target(self.targets@, name@, 0) == first_target(
                    self.targets@,
                    name@,
                    i as int,
                ),
            decreases self.targets.len() - i,
        {
            if str_eq(self.targets[i].d.name.as_str(), name) {
                return Some(i);
            }
            i += 1;
        }
        None
    }

    /// Compiles the first target named `name` for an invocation with the
    /// arguments `args` and starts the run of its first unit. There has to
    /// be a target of that name.
    pub fn run(&self, name: &str, args: Args) -> (r: CrawlResult<Fixpoint<Package>>)
        requires
            first_target(self.targets@, name@, 0) is Some,
        ensures
            exists|root: RootContext, built: CrawlResult<Work<Package>>|
                root.inner.target == self.targets@[first_target(self.targets@, name@, 0)->0]
                    && root.inner.args == args && builds(
                    root.inner.target.d.work,
                    target_base(root),
                    built,
                ) && match r {
                    Ok(run) => built is Ok && run@ == run_of(seq![built->Ok_0]),
                    Err(e) => built == Err::<Work<Package>, _>(e),
                },
    {
        let i = self.find(name).unwrap();
        match self.targets[i].clone().build(args) {
            Ok(runner) => {
                let ghost unit = runner.work;
                let run = runner.run();
                assert(exists|root: RootContext|
                    root.inner.target == self.targets@[i as int] && root.inner.args == args
                        && builds(root.inner.target.d.work, target_base(root), Ok(unit)));
                Ok(run)
            },
            Err(e) => Err(e),
        }
    }
}

} // verus!
