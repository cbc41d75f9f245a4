//! The tree of execution contexts.
use vstd::prelude::*;
use vstd::string::*;
use std::sync::Arc;
use crate::compile::{compiled_flow, compiled_named_flow, first_named, outcome};
use crate::error::{CrawlError, CrawlErrorKind, CrawlResult, ErrorKindView};
use crate::identity::{fresh_id, id_text, is_random_uuid, uuid_text};
use crate::station::{Station, StationView};
use crate::text::str_eq;
use crate::shared::share;
use crate::target::Target;
use crate::utils::{interpolate, interpolated};
use crate::value::{Args, Value, ValueView};

verus! {

/// What a context hangs from: another context, or the root.
#[derive(Debug)]
pub enum ParentOrRoot {
    Parent(Context),
    Root(RootContext),
}

/// One node of the tree: an identity, a label for the logs, optional
/// argument overrides, how many flows may still be entered below the node,
/// one inside the other, and what the node hangs from.
#[derive(Debug)]
pub struct Node {
    pub id: u128,
    pub label: Option<String>,
    pub args: Option<Args>,
    pub budget: usize,
    pub parent: ParentOrRoot,
}

/// A handle onto a node of the tree. Nodes never change, and a copy of the
/// handle shares the node and all its ancestors.
#[derive(Debug)]
pub struct Context {
    pub node: Arc<Node>,
}

#[derive(Debug)]
pub struct RootInner {
    pub id: u128,
    pub args: Args,
    pub target: Target,
}

/// The root of the tree: the arguments of the invocation and the target.
#[derive(Debug)]
pub struct RootContext {
    pub inner: Arc<RootInner>,
}

/// The mathematical model of a [`Context`]: the node without its identity,
/// which differs from one run to the next.
pub struct ContextView {
    pub label: Option<Seq<char>>,
    pub args: Option<Map<Seq<char>, ValueView>>,
    pub budget: nat,
    pub parent: ParentView,
}

pub enum ParentView {
    Parent(Box<ContextView>),
    Root(RootContext),
}

/// The model of optional argument overrides.
pub open spec fn overrides(args: Option<Args>) -> Option<Map<Seq<char>, ValueView>> {
    match args {
        Some(a) => Some(a@),
        None => None,
    }
}

/// The model of an optional string.
pub open spec fn optional_text(text: Option<String>) -> Option<Seq<char>> {
    match text {
        Some(s) => Some(s@),
        None => None,
    }
}

impl ContextView {
    /// The root that the context hangs from.
    pub open spec fn root(self) -> RootContext
        decreases self,
    {
        match self.parent {
            ParentView::Parent(p) => p.root(),
            ParentView::Root(r) => r,
        }
    }

    /// The arguments that the context inherits: those of its parent, merged.
    pub open spec fn inherited(self) -> Map<Seq<char>, ValueView>
        decreases self, 0nat,
    {
        match self.parent {
            ParentView::Parent(p) => p.merged(),
            ParentView::Root(r) => r.inner.args@,
        }
    }

    /// All the arguments that the context sees: every layer from the root
    /// down folded into one map, a descendant's override taking precedence.
    pub open spec fn merged(self) -> Map<Seq<char>, ValueView>
        decreases self, 1nat,
    {
        match self.args {
            Some(a) => self.inherited().union_prefer_right(a),
            None => self.inherited(),
        }
    }

    /// The value of `key` found by walking toward the root: that of the
    /// nearest layer that defines it.
    pub open spec fn resolved(self, key: Seq<char>) -> Option<ValueView>
        decreases self,
    {
        if self.args is Some && self.args->0.contains_key(key) {
            Some(self.args->0[key])
        } else {
            match self.parent {
                ParentView::Parent(p) => p.resolved(key),
                ParentView::Root(r) => if r.inner.args@.contains_key(key) {
                    Some(r.inner.args@[key])
                } else {
                    None
                },
            }
        }
    }

    /// The model of the child that hangs from this context.
    pub open spec fn child(
        self,
        label: Seq<char>,
        args: Option<Map<Seq<char>, ValueView>>,
    ) -> ContextView {
        ContextView {
            label: Some(label),
            args,
            budget: self.budget,
            parent: ParentView::Parent(Box::new(self)),
        }
    }
}

/// Looking a name up in the merged arguments is walking toward the root: an
/// override shadows whatever the ancestors say, and a name that a layer
/// leaves out falls through to the nearest ancestor that defines it.
pub proof fn lemma_nearest_override_wins(ctx: ContextView, key: Seq<char>)
    ensures
        ctx.merged().contains_key(key) <==> ctx.resolved(key) is Some,
        ctx.merged().contains_key(key) ==> ctx.resolved(key) == Some(ctx.merged()[key]),
    decreases ctx,
{
    match ctx.parent {
        ParentView::Parent(p) => {
            lemma_nearest_override_wins(*p, key);
        },
        ParentView::Root(_) => {},
    }
}

/// A child that overrides a name sees its own value, whatever the ancestors
/// say; a child that leaves the name out sees what its parent sees.
pub proof fn lemma_child_shadows(
    parent: ContextView,
    label: Seq<char>,
    args: Option<Map<Seq<char>, ValueView>>,
    key: Seq<char>,
)
    ensures
        args is Some && args->0.contains_key(key) ==> parent.child(label, args).resolved(key)
            == Some(args->0[key]),
        !(args is Some && args->0.contains_key(key)) ==> parent.child(label, args).resolved(key)
            == parent.resolved(key),
{
}

impl View for Context {
    type V = ContextView;

    open spec fn view(&self) -> ContextView
        decreases self,
    {
        ContextView {
            label: optional_text(self.node.label),
            args: overrides(self.node.args),
            budget: self.node.budget as nat,
            parent: match self.node.parent {
                ParentOrRoot::Parent(p) => ParentView::Parent(Box::new(p@)),
                ParentOrRoot::Root(r) => ParentView::Root(r),
            },
        }
    }
}

impl Clone for RootContext {
    fn clone(&self) -> (r: RootContext)
        ensures
            r == *self,
    {
        RootContext { inner: share(&self.inner) }
    }
}

impl Clone for Context {
    fn clone(&self) -> (r: Context)
        ensures
            r == *self,
    {
        Context { node: share(&self.node) }
    }
}

impl RootContext {
    pub fn new(target: Target, args: Args) -> (r: RootContext)
        ensures
            r.inner.target == target,
            r.inner.args == args,
            is_random_uuid(r.inner.id),
    {
        RootContext { inner: Arc::new(RootInner { id: fresh_id(), target, args }) }
    }

    pub fn id(&self) -> (r: u128)
        ensures
            r == self.inner.id,
    {
        self.inner.id
    }

    pub fn target(&self) -> (r: &Target)
        ensures
            *r == self.inner.target,
    {
        &self.inner.target
    }

    pub fn args(&self) -> (r: &Args)
        ensures
            *r == self.inner.args,
    {
        &self.inner.args
    }

    /// `name` with its placeholders replaced by the arguments of the
    /// invocation.
    pub fn interpolate(&self, name: &str) -> (r: Option<String>)
        ensures
            r matches Some(s) && s@ == interpolated(name@, self.inner.args@),
    {
        Some(interpolate(name, &self.inner.args))
    }

    /// The position of the first flow of the target that is named `name`.
    pub fn find_flow(&self, name: &str) -> (r: Option<usize>)
        ensures
            match r {
                Some(i) => first_named(self.inner.target.d.flows@, name@, 0) == Some(i as int)
                    && i < self.inner.target.d.flows.len(),
                None => first_named(self.inner.target.d.flows@, name@, 0) is None,
            },
    {
        let flows = &self.inner.target.d.flows;
        let mut i: usize = 0;
        while i < flows.len()
            invariant
                i <= flows.len(),
                flows == &self.inner.target.d.flows,
                first_named(flows@, name@, 0) == first_named(flows@, name@, i as int),
            decreases flows.len() - i,
        {
            if str_eq(flows[i].name.as_str(), name) {
                return Some(i);
            }
            i += 1;
        }
        None
    }

    /// Compiles the flow named `name` with the arguments `args`, in a
    /// context right under the root, when `budget` more flows may be
    /// entered.
    pub(crate) fn flow_within(&self, name: &str, args: &Args, budget: usize) -> (r: CrawlResult<
        Station,
    >)
        ensures
            outcome(r) == compiled_named_flow(*self, name@, args@, budget as nat),
        decreases budget, 0nat, self, 0nat,
    {
        match self.find_flow(name) {
            None => Err(CrawlError::not_found(name)),
            Some(i) => {
                if budget == 0 {
                    Err(
                        CrawlError::new(
                            CrawlErrorKind::Error(String::from_str("circular flow reference")),
                        ),
                    )
                } else {
                    let base = Context::with_budget(
                        ParentOrRoot::Root(self.clone()),
                        None,
                        None,
                        budget - 1,
                    );
                    self.inner.target.d.flows[i].request_station(args, &base)
                }
            },
        }
    }

    /// Compiles the flow named `name` with the arguments `args`, in a
    /// context right under the root. Of two flows with one name the first
    /// counts; without a flow of that name the compilation fails.
    pub fn flow(&self, name: &str, args: Args) -> (r: CrawlResult<Station>)
        ensures
            outcome(r) == compiled_named_flow(*self, name@, args@, self.spec_budget()),
            first_named(self.inner.target.d.flows@, name@, 0) is None ==> outcome(r) == Err::<
                StationView,
                _,
            >(ErrorKindView::NotFound(name@)),
    {
        self.flow_within(name, &args, self.inner.target.d.flows.len())
    }

    /// How many flows a context below this root may enter, one inside the
    /// other: as many as the target declares.
    pub open spec fn spec_budget(self) -> nat {
        self.inner.target.d.flows@.len()
    }

    /// A new context that hangs from the root, with a fresh identity, the
    /// label `name` and the overrides `args`.
    pub fn child(&self, name: &str, args: Option<Args>) -> (r: Context)
        ensures
            r@ == (ContextView {
                label: Some(name@),
                args: overrides(args),
                budget: self.spec_budget(),
                parent: ParentView::Root(*self),
            }),
            r.node.parent == ParentOrRoot::Root(*self),
            r.node.args == args,
            is_random_uuid(r.node.id),
    {
        Context {
            node: Arc::new(
                Node {
                    id: fresh_id(),
                    label: Some(String::from_str(name)),
                    args,
                    budget: self.inner.target.d.flows.len(),
                    parent: ParentOrRoot::Root(self.clone()),
                },
            ),
        }
    }
}

impl Context {
    /// A new context under `parent`, with a fresh identity.
    pub fn new(parent: ParentOrRoot, args: Option<Args>, label: Option<String>) -> (r: Context)
        ensures
            r.node.parent == parent,
            r.node.args == args,
            r.node.label == label,
            r.node.budget as nat == match parent {
                ParentOrRoot::Parent(p) => p@.budget,
                ParentOrRoot::Root(root) => root.spec_budget(),
            },
            is_random_uuid(r.node.id),
    {
        let budget = match &parent {
            ParentOrRoot::Parent(p) => p.node.budget,
            ParentOrRoot::Root(root) => root.inner.target.d.flows.len(),
        };
        Context { node: Arc::new(Node { id: fresh_id(), label, args, budget, parent }) }
    }

    /// A new context under `parent` below which `budget` more flows may be
    /// entered.
    pub(crate) fn with_budget(
        parent: ParentOrRoot,
        args: Option<Args>,
        label: Option<String>,
        budget: usize,
    ) -> (r: Context)
        ensures
            r.node.parent == parent,
            r.node.args == args,
            r.node.label == label,
            r.node.budget == budget,
            is_random_uuid(r.node.id),
    {
        Context { node: Arc::new(Node { id: fresh_id(), label, args, budget, parent }) }
    }

    /// Compiles the flow named `name` with the arguments `args` under this
    /// context. Of two flows with one name the first counts; without a flow
    /// of that name the compilation fails.
    pub fn flow(&self, name: &str, args: Args) -> (r: CrawlResult<Station>)
        ensures
            outcome(r) == match first_named(self@.root().inner.target.d.flows@, name@, 0) {
                Some(i) => compiled_flow(self@.root().inner.target.d.flows@[i], args@, self@),
                None => Err(ErrorKindView::NotFound(name@)),
            },
    {
        let root = self.root();
        match root.find_flow(name) {
            Some(i) => root.inner.target.d.flows[i].request_station(&args, self),
            None => Err(CrawlError::not_found(name)),
        }
    }

    pub fn id(&self) -> (r: u128)
        ensures
            r == self.node.id,
    {
        self.node.id
    }

    /// The label that the context carries in the logs.
    pub fn label(&self) -> (r: Option<&str>)
        ensures
            match r {
                Some(s) => self@.label == Some(s@),
                None => self@.label is None,
            },
    {
        match &self.node.label {
            Some(s) => Some(s.as_str()),
            None => None,
        }
    }

    /// The scope under which the context logs: its label and, in round
    /// brackets, its identity.
    pub fn scope(&self) -> (r: Option<String>)
        ensures
            match r {
                Some(s) => self@.label matches Some(label) && s@ == label + "("@ + uuid_text(
                    self.node.id,
                ) + ")"@,
                None => self@.label is None,
            },
    {
        match &self.node.label {
            Some(label) => {
                let mut s = label.clone();
                s.append("(");
                s.append(id_text(self.node.id).as_str());
                s.append(")");
                Some(s)
            },
            None => None,
        }
    }

    /// The arguments that the context sees: those of every layer from the
    /// root down, merged. A name that a layer overrides has the value of
    /// the nearest such layer; a name that a layer leaves out falls through
    /// to the nearest ancestor that defines it.
    pub fn args(&self) -> (r: Args)
        ensures
            r@ == self@.merged(),
            forall|key: Seq<char>|
                r@.contains_key(key) <==> (#[trigger] self@.resolved(key)) is Some,
            forall|key: Seq<char>|
                r@.contains_key(key) ==> #[trigger] self@.resolved(key) == Some(r@[key]),
    {
        proof {
            assert forall|key: Seq<char>|
                (self@.merged().contains_key(key) <==> (#[trigger] self@.resolved(key)) is Some)
                    && (self@.merged().contains_key(key) ==> self@.resolved(key) == Some(
                    self@.merged()[key],
                )) by {
                lemma_nearest_override_wins(self@, key);
            }
        }
        self.all_args()
    }

    /// All the arguments that the context sees, every layer from the root
    /// down folded into one map.
    pub fn all_args(&self) -> (r: Args)
        ensures
            r@ == self@.merged(),
        decreases self,
    {
        let mut args = match &self.node.parent {
            ParentOrRoot::Root(r) => r.args().clone(),
            ParentOrRoot::Parent(p) => p.all_args(),
        };
        if let Some(a) = &self.node.args {
            args.extend(a);
        }
        args
    }

    /// The value of `key` for this context: that of the nearest layer,
    /// toward the root, that defines it.
    pub fn get(&self, key: &str) -> (r: Option<&Value>)
        ensures
            match r {
                Some(v) => self@.resolved(key@) == Some(v@),
                None => self@.resolved(key@) is None,
            },
        decreases self,
    {
        if let Some(a) = &self.node.args {
            if let Some(v) = a.get(key) {
                return Some(v);
            }
        }
        match &self.node.parent {
            ParentOrRoot::Parent(p) => p.get(key),
            ParentOrRoot::Root(r) => r.args().get(key),
        }
    }

    /// `name` with its placeholders replaced by the arguments that the
    /// context sees.
    pub fn interpolate(&self, name: &str) -> (r: Option<String>)
        ensures
            r matches Some(s) && s@ == interpolated(name@, self@.merged()),
    {
        let args = self.all_args();
        Some(interpolate(name, &args))
    }

    /// `text` with its placeholders replaced by `args` and, for the names
    /// that `args` leaves out, by the arguments that the context sees.
    pub fn interpolate_with(&self, text: &str, args: &Args) -> (r: String)
        ensures
            r@ == interpolated(text@, self@.merged().union_prefer_right(args@)),
    {
        let mut oargs = self.all_args();
        oargs.extend(args);
        interpolate(text, &oargs)
    }

    /// A new context that hangs from this one, with a fresh identity, the
    /// label `name` and the overrides `args`.
    pub fn child(&self, name: &str, args: Option<Args>) -> (r: Context)
        ensures
            r@ == self@.child(name@, overrides(args)),
            r.node.parent == ParentOrRoot::Parent(*self),
            r.node.args == args,
            r.node.budget == self.node.budget,
            is_random_uuid(r.node.id),
    {
        Context {
            node: Arc::new(
                Node {
                    id: fresh_id(),
                    label: Some(String::from_str(name)),
                    args,
                    budget: self.node.budget,
                    parent: ParentOrRoot::Parent(self.clone()),
                },
            ),
        }
    }

    pub fn parent(&self) -> (r: Option<&Context>)
        ensures
            match r {
                Some(p) => self.node.parent == ParentOrRoot::Parent(*p),
                None => self.node.parent is Root,
            },
    {
        match &self.node.parent {
            ParentOrRoot::Parent(p) => Some(p),
            ParentOrRoot::Root(_) => None,
        }
    }

    /// The root that the context hangs from, through its ancestors.
    pub open spec fn root_of(self) -> RootContext
        decreases self,
    {
        match self.node.parent {
            ParentOrRoot::Parent(p) => p.root_of(),
            ParentOrRoot::Root(r) => r,
        }
    }

    pub fn root(&self) -> (r: &RootContext)
        ensures
            *r == self.root_of(),
            *r == self@.root(),
        decreases self,
    {
        match &self.node.parent {
            ParentOrRoot::Parent(p) => p.root(),
            ParentOrRoot::Root(r) => r,
        }
    }
}

} // verus!
