//! The flows of a target.
use vstd::prelude::*;
use std::sync::Arc;
use crate::descriptions::TargetDescription;

verus! {

/// The flows that a target declares.
pub struct Flows {
    pub target: Arc<TargetDescription>,
}

impl Flows {
    pub fn new(target: Arc<TargetDescription>) -> (r: Flows)
        ensures
            r.target == target,
    {
        Flows { target }
    }

    /// Asks for the flow named `name`. Nothing comes of it.
    pub fn request(&self, name: &str) {
    }
}

} // verus!
