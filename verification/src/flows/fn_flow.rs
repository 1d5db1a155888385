//! A flow made of a function and the data it is handed on every run.

use crate::describe::{Description, DescriptionBase, Edge, Type};
use crate::flows::{between_nodes, describe_flow, describes_flow, into_node, out_of_node};
use crate::node::{Node, NodeOutput};
use vstd::prelude::*;

verus! {

/// The function of an [`FnFlow`].
pub trait Runner<Input, Output, Error, Context, InnerData> {
    /// Whether running on `data` and `input` in the context `before` may
    /// come back with `result` and leave the context as `after`. A runner
    /// that says nothing about itself may do anything.
    open spec fn runs(
        &self,
        data: InnerData,
        input: Input,
        before: Context,
        result: Result<NodeOutput<Output>, Error>,
        after: Context,
    ) -> bool {
        true
    }

    /// Runs the function.
    fn run(&self, data: InnerData, input: Input, context: &mut Context) -> (result: Result<
        NodeOutput<Output>,
        Error,
    >)
        ensures
            self.runs(data, input, *old(context), result, *final(context)),
    ;
}

/// A flow that hands a copy of its data and the input to its runner.
pub struct FnFlow<InnerData, R> {
    inner_data: InnerData,
    runner_description: Option<Description>,
    runner: R,
}

impl<InnerData, R> FnFlow<InnerData, R> {
    /// The data that every run is handed a copy of.
    pub closed spec fn inner_data(&self) -> InnerData {
        self.inner_data
    }

    /// The runner.
    pub closed spec fn runner(&self) -> R {
        self.runner
    }

    /// The description that was set for the flow, if one was.
    pub closed spec fn runner_description(&self) -> Option<Description> {
        self.runner_description
    }

    /// Makes a flow of `runner` and the data it works with. No description
    /// is set.
    pub fn new(inner_data: InnerData, runner: R) -> (flow: Self)
        ensures
            flow.inner_data() == inner_data,
            flow.runner() == runner,
            flow.runner_description() is None,
    {
        FnFlow { inner_data, runner_description: None, runner }
    }

    /// Takes the flow apart and hands out its data, its runner and the
    /// description that was set for it, if one was.
    pub fn into_parts(self) -> (parts: (InnerData, R, Option<Description>))
        ensures
            parts.0 == self.inner_data(),
            parts.1 == self.runner(),
            parts.2 == self.runner_description(),
    {
        (self.inner_data, self.runner, self.runner_description)
    }

    /// Sets the description that the flow goes by.
    #[must_use]
    pub fn with_description(self, description: Description) -> (flow: Self)
        ensures
            flow.inner_data() == self.inner_data(),
            flow.runner() == self.runner(),
            flow.runner_description() == Some(description),
    {
        let mut flow = self;
        flow.runner_description = Some(description);
        flow
    }

    /// Describes the flow. Where a description was set, the flow goes by a
    /// copy of it. Otherwise it is described as [`describe_fn_flow`] says:
    /// `base` tells what the flow itself is, and `inner_data` is the type
    /// of its data.
    pub fn describe(&self, base: DescriptionBase, inner_data: Type) -> (described: Description)
        ensures
            match self.runner_description() {
                Some(set) => described.same_as(set),
                None => describes_fn_flow(described, base, inner_data),
            },
    {
        if let Some(set) = &self.runner_description {
            return set.clone();
        }
        describe_fn_flow(base, inner_data)
    }
}

/// Whether `described` is the description of a flow made of a function
/// with the given base: it is a flow of two parts, the runner, which has
/// the error and the context of the flow, and the inner data.
pub open spec fn describes_fn_flow(
    described: Description,
    base: DescriptionBase,
    inner_data: Type,
) -> bool {
    &&& describes_flow(described, base, described->Flow_nodes, fn_flow_wiring())
    &&& described->Flow_nodes@.len() == 2
    &&& described->Flow_nodes@[0].is_part("Runner"@, base.error.name@, base.context.name@)
    &&& described->Flow_nodes@[1] is Node
    &&& described->Flow_nodes@[1].base().ty == inner_data
    &&& described->Flow_nodes@[1].base().input.name@ == Seq::<char>::empty()
    &&& described->Flow_nodes@[1].base().output.name@ == Seq::<char>::empty()
    &&& described->Flow_nodes@[1].base().error.name@ == Seq::<char>::empty()
    &&& described->Flow_nodes@[1].base().context.name@ == Seq::<char>::empty()
    &&& described->Flow_nodes@[1].base().description is None
    &&& described->Flow_nodes@[1].base().externals is None
}

/// Describes a flow made of a function as a flow of two parts: the runner,
/// which takes the flow's input and gives its output, and the inner data,
/// which feeds the runner. `base` tells what the flow itself is, and
/// `inner_data` is the type of its data.
pub fn describe_fn_flow(base: DescriptionBase, inner_data: Type) -> (described: Description)
    ensures
        describes_fn_flow(described, base, inner_data),
{
    let runner = Description::new_part("Runner", base.error.clone(), base.context.clone());
    let data = Description::new_node(
        DescriptionBase::from(
            inner_data,
            Type::unnamed(),
            Type::unnamed(),
            Type::unnamed(),
            Type::unnamed(),
        ),
    );
    let mut nodes: Vec<Description> = Vec::new();
    nodes.push(runner);
    nodes.push(data);
    let mut edges: Vec<Edge> = Vec::new();
    edges.push(Edge::flow_to_node(0));
    edges.push(Edge::node_to_flow(0));
    edges.push(Edge::node_to_node(1, 0));
    assert(edges@ =~= fn_flow_wiring());
    describe_flow(base, nodes, edges)
}

/// The wiring of a flow made of a function: the flow's input goes to the
/// runner, the runner gives the flow's output, and the inner data feeds the
/// runner.
pub open spec fn fn_flow_wiring() -> Seq<Edge> {
    seq![into_node(0), out_of_node(0), between_nodes(1, 0)]
}

impl<InnerData: Clone, R: Clone> Clone for FnFlow<InnerData, R> {
    /// Copies the data, the runner and the description.
    fn clone(&self) -> (copy: Self) {
        FnFlow {
            inner_data: self.inner_data.clone(),
            runner_description: match &self.runner_description {
                Some(set) => Some(set.clone()),
                None => None,
            },
            runner: self.runner.clone(),
        }
    }
}

impl<Input, Output, Error, Context, InnerData: Clone, R: Runner<
    Input,
    Output,
    Error,
    Context,
    InnerData,
>> Node<Input, NodeOutput<Output>, Error, Context> for FnFlow<InnerData, R> {
    /// The runner is handed a copy of the flow's data and the input.
    open spec fn yields(
        &self,
        input: Input,
        before: Context,
        result: Result<NodeOutput<Output>, Error>,
        after: Context,
    ) -> bool {
        exists|data: InnerData| #[trigger]
            cloned(self.inner_data(), data) && self.runner().runs(
                data,
                input,
                before,
                result,
                after,
            )
    }

    fn run(&mut self, input: Input, context: &mut Context) -> (result: Result<
        NodeOutput<Output>,
        Error,
    >)
        ensures
            *final(self) == *old(self),
    {
        let data = self.inner_data.clone();
        let result = self.runner.run(data, input, context);
        assert(cloned(self.inner_data(), data));
        result
    }
}

} // verus!
