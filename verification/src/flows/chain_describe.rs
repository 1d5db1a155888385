use crate::describe::{
    generics_start, remove_generics_from_name, Description, DescriptionBase, Edge, EdgeEnding,
};
use vstd::prelude::*;

verus! {

/// The edge from the flow's input to the node `index`.
pub open spec fn into_node(index: int) -> Edge {
    Edge { start: EdgeEnding::ToFlow, end: EdgeEnding::ToNode { node_index: index as usize } }
}

/// The edge from the node `index` to the flow's output.
pub open spec fn out_of_node(index: int) -> Edge {
    Edge { start: EdgeEnding::ToNode { node_index: index as usize }, end: EdgeEnding::ToFlow }
}

/// The edge from the node `start` to the node `end`.
pub open spec fn between_nodes(start: int, end: int) -> Edge {
    Edge {
        start: EdgeEnding::ToNode { node_index: start as usize },
        end: EdgeEnding::ToNode { node_index: end as usize },
    }
}

/// The wiring of a pipeline of `count` nodes: the flow's input goes to the
/// first node, every node feeds the next, and the last node gives the
/// flow's output. A pipeline without nodes hands its input through.
pub open spec fn sequential_wiring(count: int) -> Seq<Edge> {
    if count <= 0 {
        seq![Edge { start: EdgeEnding::ToFlow, end: EdgeEnding::ToFlow }]
    } else {
        Seq::new(
            (count + 1) as nat,
            |i: int|
                if i == 0 {
                    into_node(0)
                } else if i == count {
                    out_of_node(count - 1)
                } else {
                    between_nodes(i - 1, i)
                },
        )
    }
}

/// The wiring of a choice between `count` nodes: for each node in turn, the
/// flow's input goes to the node and the node gives the flow's output.
pub open spec fn one_of_wiring(count: int) -> Seq<Edge> {
    Seq::new(
        (2 * count) as nat,
        |i: int|
            if i % 2 == 0 {
                into_node(i / 2)
            } else {
                out_of_node(i / 2)
            },
    )
}

/// The wiring of a fan-out over `count` nodes whose joiner is described as
/// the node after them: for each node in turn, the flow's input goes to the
/// node and the node feeds the joiner; last, the joiner gives the flow's
/// output.
pub open spec fn parallel_wiring(count: int) -> Seq<Edge> {
    Seq::new(
        (2 * count + 1) as nat,
        |i: int|
            if i == 2 * count {
                out_of_node(count)
            } else if i % 2 == 0 {
                into_node(i / 2)
            } else {
                between_nodes(i / 2, count)
            },
    )
}

/// Wires a pipeline of `count` nodes.
pub fn sequential_edges(count: usize) -> (edges: Vec<Edge>)
    ensures
        edges@ == sequential_wiring(count as int),
{
    let mut edges: Vec<Edge> = Vec::new();
    if count == 0 {
        edges.push(Edge::passthrough());
        return edges;
    }
    edges.push(Edge::flow_to_node(0));
    let mut index: usize = 1;
    while index < count
        invariant
            1 <= index <= count,
            edges@.len() == index,
            forall|i: int| 0 <= i < index ==> edges@[i] == sequential_wiring(count as int)[i],
        decreases count - index,
    {
        edges.push(Edge::node_to_node(index - 1, index));
        index += 1;
    }
    edges.push(Edge::node_to_flow(count - 1));
    edges
}

/// Wires a choice between `count` nodes.
pub fn one_of_edges(count: usize) -> (edges: Vec<Edge>)
    ensures
        edges@ == one_of_wiring(count as int),
{
    let mut edges: Vec<Edge> = Vec::new();
    let mut index: usize = 0;
    while index < count
        invariant
            index <= count,
            edges@.len() == 2 * index,
            forall|i: int| 0 <= i < 2 * index ==> edges@[i] == one_of_wiring(count as int)[i],
        decreases count - index,
    {
        edges.push(Edge::flow_to_node(index));
        edges.push(Edge::node_to_flow(index));
        index += 1;
    }
    edges
}

/// Wires a fan-out over `count` nodes and their joiner.
pub fn parallel_edges(count: usize) -> (edges: Vec<Edge>)
    ensures
        edges@ == parallel_wiring(count as int),
{
    let mut edges: Vec<Edge> = Vec::new();
    let mut index: usize = 0;
    while index < count
        invariant
            index <= count,
            edges@.len() == 2 * index,
            forall|i: int| 0 <= i < 2 * index ==> edges@[i] == parallel_wiring(count as int)[i],
        decreases count - index,
    {
        edges.push(Edge::flow_to_node(index));
        edges.push(Edge::node_to_node(index, count));
        index += 1;
    }
    edges.push(Edge::node_to_flow(count));
    edges
}

/// Whether `described` is the description of a flow with the given base,
/// nodes and edges, under the flow's name without its generic arguments.
pub open spec fn describes_flow(
    described: Description,
    base: DescriptionBase,
    nodes: Vec<Description>,
    edges: Seq<Edge>,
) -> bool {
    &&& described is Flow
    &&& described->Flow_nodes == nodes
    &&& described->Flow_edges@ == edges
    &&& described.base().ty.name@ == base.ty.name@.take(generics_start(base.ty.name@))
    &&& described.base().input == base.input
    &&& described.base().output == base.output
    &&& described.base().error == base.error
    &&& described.base().context == base.context
    &&& described.base().description == base.description
    &&& described.base().externals == base.externals
}

/// Describes a flow: the base tells what the flow itself is, `nodes` are
/// the descriptions of what it holds, and `edges` says how they are wired.
/// The flow goes by its name without generic arguments.
pub fn describe_flow(base: DescriptionBase, nodes: Vec<Description>, edges: Vec<Edge>) -> (described:
    Description)
    ensures
        describes_flow(described, base, nodes, edges@),
{
    Description::new_flow(base, nodes, edges).modify_name(remove_generics_from_name)
}

} // verus!
