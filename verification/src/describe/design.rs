use vstd::prelude::*;

verus! {

/// The name of a type.
#[derive(Debug)]
pub struct Type {
    /// The name, as the compiler spells it.
    pub name: String,
}

impl Clone for Type {
    /// Copies the name.
    fn clone(&self) -> (copy: Self)
        ensures
            copy == *self,
    {
        Type { name: self.name.clone() }
    }
}

impl Type {
    /// The type with the given name.
    #[must_use]
    pub fn named(name: String) -> (named: Self)
        ensures
            named.name == name,
    {
        Type { name }
    }

    /// The type that goes unnamed: its name is empty.
    #[must_use]
    pub fn unnamed() -> (named: Self)
        ensures
            named.name@ == Seq::<char>::empty(),
    {
        Type { name: String::new() }
    }
}

/// One end of an edge in the description of a flow.
#[derive(Debug, Clone, Copy, PartialEq, Eq)]
pub enum EdgeEnding {
    /// The flow itself: its input at the start of an edge, its output at
    /// the end of one.
    ToFlow,
    /// The node with this index among the nodes of the flow.
    ToNode {
        /// The index of the node.
        node_index: usize,
    },
}

/// A connection in the description of a flow: data moves from `start` to
/// `end`.
#[derive(Debug, Clone, Copy, PartialEq, Eq)]
pub struct Edge {
    /// Where the data comes from.
    pub start: EdgeEnding,
    /// Where the data goes.
    pub end: EdgeEnding,
}

impl Edge {
    /// The edge from the flow's input straight to its output.
    #[must_use]
    pub fn passthrough() -> (edge: Self)
        ensures
            edge == (Edge { start: EdgeEnding::ToFlow, end: EdgeEnding::ToFlow }),
    {
        Edge { start: EdgeEnding::ToFlow, end: EdgeEnding::ToFlow }
    }

    /// The edge from the flow's input to the node `node_idx`.
    #[must_use]
    pub fn flow_to_node(node_idx: usize) -> (edge: Self)
        ensures
            edge == (Edge {
                start: EdgeEnding::ToFlow,
                end: EdgeEnding::ToNode { node_index: node_idx },
            }),
    {
        Edge { start: EdgeEnding::ToFlow, end: EdgeEnding::ToNode { node_index: node_idx } }
    }

    /// The edge from the node `node_idx` to the flow's output.
    #[must_use]
    pub fn node_to_flow(node_idx: usize) -> (edge: Self)
        ensures
            edge == (Edge {
                start: EdgeEnding::ToNode { node_index: node_idx },
                end: EdgeEnding::ToFlow,
            }),
    {
        Edge { start: EdgeEnding::ToNode { node_index: node_idx }, end: EdgeEnding::ToFlow }
    }

    /// The edge from the node `start_node_idx` to the node `end_node_idx`.
    #[must_use]
    pub fn node_to_node(start_node_idx: usize, end_node_idx: usize) -> (edge: Self)
        ensures
            edge == (Edge {
                start: EdgeEnding::ToNode { node_index: start_node_idx },
                end: EdgeEnding::ToNode { node_index: end_node_idx },
            }),
    {
        Edge {
            start: EdgeEnding::ToNode { node_index: start_node_idx },
            end: EdgeEnding::ToNode { node_index: end_node_idx },
        }
    }
}

/// Something outside the flow that a node makes use of.
#[derive(Debug)]
pub struct ExternalResource {
    /// The type of the resource.
    pub ty: Type,
    /// What the resource is for.
    pub description: Option<String>,
    /// The type of what the resource gives.
    pub output: Type,
}

impl Clone for ExternalResource {
    /// Copies the resource.
    fn clone(&self) -> (copy: Self)
        ensures
            copy == *self,
    {
        ExternalResource {
            ty: self.ty.clone(),
            description: match &self.description {
                Some(text) => Some(text.clone()),
                None => None,
            },
            output: self.output.clone(),
        }
    }
}

impl ExternalResource {
    /// Describes a resource of type `ty` that gives `output`, without a
    /// description.
    #[must_use]
    pub fn new(ty: Type, output: Type) -> (resource: Self)
        ensures
            resource == (ExternalResource { ty, description: None, output }),
    {
        ExternalResource { ty, description: None, output }
    }

    /// Sets the description.
    #[must_use]
    pub fn with_description(self, description: String) -> (resource: Self)
        ensures
            resource == (ExternalResource { description: Some(description), ..self }),
    {
        let mut resource = self;
        resource.description = Some(description);
        resource
    }
}

/// What the descriptions of nodes and of flows have in common.
#[derive(Debug)]
pub struct DescriptionBase {
    /// The type of the node or flow.
    pub ty: Type,
    /// The type of its input.
    pub input: Type,
    /// The type of its output.
    pub output: Type,
    /// The type of its error.
    pub error: Type,
    /// The type of the context it runs in.
    pub context: Type,
    /// What it is for.
    pub description: Option<String>,
    /// What it uses from outside the flow.
    pub externals: Option<Vec<ExternalResource>>,
}

impl Clone for DescriptionBase {
    /// Copies the base with its external resources.
    fn clone(&self) -> (copy: Self)
        ensures
            copy.same_as(*self),
    {
        let externals = match &self.externals {
            Some(resources) => {
                let mut copies: Vec<ExternalResource> = Vec::new();
                let mut index: usize = 0;
                while index < resources.len()
                    invariant
                        index <= resources.len(),
                        copies@ == resources@.take(index as int),
                    decreases resources.len() - index,
                {
                    copies.push(resources[index].clone());
                    index += 1;
                }
                assert(resources@.take(resources@.len() as int) =~= resources@);
                Some(copies)
            },
            None => None,
        };
        DescriptionBase {
            ty: self.ty.clone(),
            input: self.input.clone(),
            output: self.output.clone(),
            error: self.error.clone(),
            context: self.context.clone(),
            description: match &self.description {
                Some(text) => Some(text.clone()),
                None => None,
            },
            externals,
        }
    }
}

impl DescriptionBase {
    /// Whether the two bases say the same: the same types, the same
    /// description and the same external resources in the same order.
    pub open spec fn same_as(self, other: DescriptionBase) -> bool {
        &&& self.ty == other.ty
        &&& self.input == other.input
        &&& self.output == other.output
        &&& self.error == other.error
        &&& self.context == other.context
        &&& self.description == other.description
        &&& match (self.externals, other.externals) {
            (Some(mine), Some(theirs)) => mine@ == theirs@,
            (None, None) => true,
            _ => false,
        }
    }

    /// The base of a description from the five types alone, without
    /// description and externals.
    #[must_use]
    pub fn from(ty: Type, input: Type, output: Type, error: Type, context: Type) -> (base: Self)
        ensures
            base == (DescriptionBase {
                ty,
                input,
                output,
                error,
                context,
                description: None,
                externals: None,
            }),
    {
        DescriptionBase { ty, input, output, error, context, description: None, externals: None }
    }

    /// Sets the description.
    #[must_use]
    pub fn with_description(self, description: String) -> (base: Self)
        ensures
            base == (DescriptionBase { description: Some(description), ..self }),
    {
        let mut base = self;
        base.description = Some(description);
        base
    }

    /// Sets the externals.
    #[must_use]
    pub fn with_externals(self, externals: Vec<ExternalResource>) -> (base: Self)
        ensures
            base == (DescriptionBase { externals: Some(externals), ..self }),
    {
        let mut base = self;
        base.externals = Some(externals);
        base
    }
}

/// The description of a node or of a flow.
#[derive(Debug)]
pub enum Description {
    /// A single node.
    Node {
        /// What the node is.
        base: DescriptionBase,
    },
    /// A flow with the nodes it holds.
    Flow {
        /// What the flow is.
        base: DescriptionBase,
        /// The nodes of the flow.
        nodes: Vec<Description>,
        /// How the nodes are wired together.
        edges: Vec<Edge>,
    },
}

impl Clone for Description {
    /// Copies the description with all the descriptions it holds.
    fn clone(&self) -> (copy: Self)
        ensures
            copy.same_as(*self),
        decreases self,
    {
        match self {
            Description::Node { base } => Description::Node { base: base.clone() },
            Description::Flow { base, nodes, edges } => {
                let mut copies: Vec<Description> = Vec::new();
                let mut index: usize = 0;
                while index < nodes.len()
                    invariant
                        index <= nodes.len(),
                        self is Flow,
                        self->Flow_nodes == *nodes,
                        copies@.len() == index,
                        forall|i: int| 0 <= i < index ==> (#[trigger] copies@[i]).same_as(nodes@[i]),
                    decreases nodes.len() - index,
                {
                    copies.push(nodes[index].clone());
                    index += 1;
                }
                let wired = edges.clone();
                Description::Flow { base: base.clone(), nodes: copies, edges: wired }
            },
        }
    }
}

impl Description {
    /// Whether the two descriptions say the same: they are of the same
    /// kind, their bases say the same, and for flows, they hold nodes that
    /// say the same, in the same order, wired by the same edges.
    pub open spec fn same_as(self, other: Description) -> bool
        decreases self,
    {
        match (self, other) {
            (Description::Node { base: mine }, Description::Node { base: theirs }) => mine.same_as(
                theirs,
            ),
            (
                Description::Flow { base: mine, nodes: my_nodes, edges: my_edges },
                Description::Flow { base: theirs, nodes: their_nodes, edges: their_edges },
            ) => {
                &&& mine.same_as(theirs)
                &&& my_edges@ == their_edges@
                &&& my_nodes@.len() == their_nodes@.len()
                &&& forall|i: int|
                    0 <= i < my_nodes@.len() ==> (#[trigger] my_nodes@[i]).same_as(their_nodes@[i])
            },
            _ => false,
        }
    }

    /// The base of the description, whichever kind it is.
    pub open spec fn base(self) -> DescriptionBase {
        match self {
            Description::Node { base } => base,
            Description::Flow { base, .. } => base,
        }
    }

    /// The same description with `base` in place of its base.
    pub open spec fn with_base(self, base: DescriptionBase) -> Description {
        match self {
            Description::Node { .. } => Description::Node { base },
            Description::Flow { nodes, edges, .. } => Description::Flow { base, nodes, edges },
        }
    }

    /// Whether this is the description of a part of a flow of which only
    /// the name, the error type and the context type are told.
    pub open spec fn is_part(self, name: Seq<char>, error: Seq<char>, context: Seq<char>) -> bool {
        &&& self is Node
        &&& self.base().ty.name@ == name
        &&& self.base().input.name@ == Seq::<char>::empty()
        &&& self.base().output.name@ == Seq::<char>::empty()
        &&& self.base().error.name@ == error
        &&& self.base().context.name@ == context
        &&& self.base().description is None
        &&& self.base().externals is None
    }

    /// Describes a part of a flow that is not a node of its own, such as a
    /// joiner, by its name, its error type and its context type.
    #[must_use]
    pub fn new_part(name: &str, error: Type, context: Type) -> (description: Self)
        ensures
            description.is_part(name@, error.name@, context.name@),
    {
        Description::Node {
            base: DescriptionBase::from(
                Type::named(name.to_owned()),
                Type::unnamed(),
                Type::unnamed(),
                error,
                context,
            ),
        }
    }

    /// The description of a single node.
    #[must_use]
    pub fn new_node(base: DescriptionBase) -> (description: Self)
        ensures
            description == (Description::Node { base }),
    {
        Description::Node { base }
    }

    /// The description of a flow of `nodes` wired by `edges`.
    #[must_use]
    pub fn new_flow(base: DescriptionBase, nodes: Vec<Self>, edges: Vec<Edge>) -> (description: Self)
        ensures
            description == (Description::Flow { base, nodes, edges }),
    {
        Description::Flow { base, edges, nodes }
    }

    /// The base of the description, for changing it in place.
    #[must_use]
    pub fn get_base_mut(&mut self) -> (base: &mut DescriptionBase)
        ensures
            *base == old(self).base(),
            *final(self) == old(self).with_base(*final(base)),
    {
        match self {
            Description::Node { base } => base,
            Description::Flow { base, .. } => base,
        }
    }

    /// The base of the description.
    #[must_use]
    pub fn get_base_ref(&self) -> (base: &DescriptionBase)
        ensures
            *base == self.base(),
    {
        match self {
            Description::Node { base } => base,
            Description::Flow { base, .. } => base,
        }
    }

    /// Sets the description.
    #[must_use]
    pub fn with_description(self, description: String) -> (described: Self)
        ensures
            described == self.with_base(
                DescriptionBase { description: Some(description), ..self.base() },
            ),
    {
        match self {
            Description::Node { base } => Description::Node {
                base: base.with_description(description),
            },
            Description::Flow { base, nodes, edges } => Description::Flow {
                base: base.with_description(description),
                nodes,
                edges,
            },
        }
    }

    /// Sets the externals.
    #[must_use]
    pub fn with_externals(self, externals: Vec<ExternalResource>) -> (described: Self)
        ensures
            described == self.with_base(
                DescriptionBase { externals: Some(externals), ..self.base() },
            ),
    {
        match self {
            Description::Node { base } => Description::Node {
                base: base.with_externals(externals),
            },
            Description::Flow { base, nodes, edges } => Description::Flow {
                base: base.with_externals(externals),
                nodes,
                edges,
            },
        }
    }
    /// Lets `func` change the name that the description goes by: the name
    /// is afterwards what `func` made of it, and nothing else changes.
    #[must_use]
    pub fn modify_name<F: FnOnce(&mut String)>(self, func: F) -> (described: Self)
        requires
            forall|name: &mut String| func.requires((name,)),
        ensures
            described == self.with_base(
                DescriptionBase { ty: described.base().ty, ..self.base() },
            ),
            exists|name: &mut String|
                *name == self.base().ty.name && *final(name) == described.base().ty.name
                    && #[trigger] func.ensures((name,), ()),
    {
        let mut described = self;
        func(&mut described.get_base_mut().ty.name);
        described
    }

}

} // verus!
