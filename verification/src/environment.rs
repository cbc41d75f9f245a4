//! The surroundings of a run: working directory, variables, arguments.
use vstd::prelude::*;
use vstd::string::*;
use std::sync::Arc;
use crate::value::{Args, ValueView};

verus! {

/// What the process hands to a run, read once.
#[derive(Debug)]
pub struct Environment {
    pub cwd: String,
    pub vars: Args,
    pub args: Vec<String>,
}

/// Collects what an [`Environment`] is made of.
pub struct EnvironmentBuilder {
    pub cwd: String,
    pub vars: Args,
    pub args: Vec<String>,
}

impl EnvironmentBuilder {
    pub fn new(cwd: String) -> (r: EnvironmentBuilder)
        ensures
            r.cwd == cwd,
            r.vars@ == Map::<Seq<char>, ValueView>::empty(),
            r.args@ == Seq::<String>::empty(),
    {
        EnvironmentBuilder { cwd, vars: Args::new(), args: Vec::new() }
    }

    pub fn build(self) -> (r: Arc<Environment>)
        ensures
            r.cwd == self.cwd,
            r.vars == self.vars,
            r.args == self.args,
    {
        Arc::new(Environment { cwd: self.cwd, vars: self.vars, args: self.args })
    }
}

impl Environment {
    pub fn build(cwd: &str) -> (r: EnvironmentBuilder)
        ensures
            r.cwd@ == cwd@,
            r.vars@ == Map::<Seq<char>, ValueView>::empty(),
            r.args@ == Seq::<String>::empty(),
    {
        EnvironmentBuilder::new(String::from_str(cwd))
    }

    pub fn cwd(&self) -> (r: &str)
        ensures
            r@ == self.cwd@,
    {
        self.cwd.as_str()
    }

    pub fn vars(&self) -> (r: &Args)
        ensures
            *r == self.vars,
    {
        &self.vars
    }
}

} // verus!
