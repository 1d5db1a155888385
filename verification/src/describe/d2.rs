use super::d2_parts::{
    BASE_CLASS, CLOSE, COLON, EDGE_ARROW, EDGE_CLOSE, EDGE_SOURCE, EDGE_TARGET, FLOW_CLASS,
    HEAD_CLOSE, HEAD_CONTEXT, HEAD_END_EDGE, HEAD_END_LABEL, HEAD_INPUT, HEAD_LABEL, HEAD_OUTPUT,
    HEAD_START_EDGE, NEWLINE, NODE_CLASS, NOTE_BREAK, NOTE_CLOSE, NOTE_CONTEXT, NOTE_OPEN,
    ENDS_CLOSE, ENDS_CONTEXT, ENDS_INPUT, ENDS_OUTPUT, END_NAME, START_NAME, QUOTES,
    RESOURCE_CLOSE, RESOURCE_NOTE, RESOURCE_OUTPUT,
};
use super::d2_text::{decimal, escaped, push_decimal, push_escaped};
use super::design::{Description, DescriptionBase, Edge, EdgeEnding, ExternalResource, Type};
use vstd::prelude::*;

verus! {

/// How flows are drawn as diagrams.
#[derive(Debug)]
pub struct D2Describer {
    /// Whether type names are shortened to their last part.
    pub simple_type_name: bool,
    /// Whether every node shows the type of the context it runs in.
    pub show_context_in_node: bool,
    /// Whether descriptions are shown.
    pub show_description: bool,
    /// Whether external resources are shown.
    pub show_externals: bool,
}

impl Default for D2Describer {
    /// Short type names, and nothing else shown.
    fn default() -> (describer: Self)
        ensures
            describer.simple_type_name,
            !describer.show_context_in_node,
            !describer.show_description,
            !describer.show_externals,
    {
        D2Describer {
            simple_type_name: true,
            show_context_in_node: false,
            show_description: false,
            show_externals: false,
        }
    }
}

impl D2Describer {
    /// A describer with the default settings.
    #[must_use]
    pub fn new() -> (describer: Self)
        ensures
            describer.simple_type_name,
            !describer.show_context_in_node,
            !describer.show_description,
            !describer.show_externals,
    {
        D2Describer {
            simple_type_name: true,
            show_context_in_node: false,
            show_description: false,
            show_externals: false,
        }
    }

    /// Lets `func` change the settings in place and hands the describer
    /// back for further changes: the settings are afterwards what `func`
    /// made of them.
    pub fn modify<F: FnOnce(&mut Self)>(&mut self, func: F) -> (describer: &mut Self)
        requires
            forall|settings: &mut Self| func.requires((settings,)),
        ensures
            *final(self) == *final(describer),
            exists|settings: &mut Self|
                *settings == *old(self) && *final(settings) == *describer && #[trigger] func.ensures(
                    (settings,),
                    (),
                ),
    {
        func(self);
        self
    }

    /// The name under which `ty` appears in a diagram. An unnamed type
    /// appears as a pair of double quotes. With short names asked for,
    /// the type appears under `simple`, its shortened name, unless that is
    /// empty; in every other case it appears under its full name.
    pub fn get_type_name(&self, ty: &Type, simple: String) -> (name: String)
        ensures
            name@ == if ty.name@.len() == 0 {
                seq!['"', '"']
            } else if self.simple_type_name && simple@.len() > 0 {
                simple@
            } else {
                ty.name@
            },
    {
        if ty.name.as_str().unicode_len() == 0 {
            let mut quotes = String::new();
            quotes.push('"');
            quotes.push('"');
            return quotes;
        }
        if self.simple_type_name && simple.as_str().unicode_len() > 0 {
            simple
        } else {
            ty.name.clone()
        }
    }
}

/// Draws a number with `rand::random`. Nothing is known of the number
/// beyond its type.
#[verifier::external_body]
fn random_id() -> (id: u64) {
    rand::random()
}

/// The ids under which a description is drawn: the id of the node or flow
/// itself, the ids of the external resources that are drawn with it, and
/// the ids for the nodes that a flow holds, in their order.
pub struct DiagramIds {
    /// The id of the node or flow.
    pub id: u64,
    /// The ids of its external resources, in their order.
    pub externals: Vec<u64>,
    /// The ids for its nodes, in their order.
    pub nodes: Vec<DiagramIds>,
}

/// Whether `ending` names the flow or one of its first `count` nodes.
pub open spec fn ending_fits(ending: EdgeEnding, count: int) -> bool {
    match ending {
        EdgeEnding::ToFlow => true,
        EdgeEnding::ToNode { node_index } => node_index < count,
    }
}

/// Whether every edge of `description`, and of every flow it holds, runs
/// between nodes that the flow has.
pub open spec fn edges_fit(description: Description) -> bool
    decreases description,
{
    match description {
        Description::Node { .. } => true,
        Description::Flow { nodes, edges, .. } => {
            &&& forall|i: int|
                0 <= i < edges@.len() ==> ending_fits(
                    (#[trigger] edges@[i]).start,
                    nodes@.len() as int,
                ) && ending_fits(edges@[i].end, nodes@.len() as int)
            &&& forall|i: int| 0 <= i < nodes@.len() ==> edges_fit(#[trigger] nodes@[i])
        },
    }
}

/// The name of a type as it is drawn: the escaped name, or a pair of double
/// quotes for a type without a name.
pub open spec fn shown(ty: Type) -> Seq<char> {
    if ty.name@.len() == 0 {
        escaped(QUOTES@)
    } else {
        escaped(ty.name@)
    }
}

/// The head of a diagram of something with the given types, drawn under
/// `id`.
pub open spec fn drawn_head(base: DescriptionBase, id: u64) -> Seq<char> {
    HEAD_CONTEXT@ + shown(base.context) + HEAD_INPUT@ + shown(base.input) + HEAD_START_EDGE@
        + decimal(id as nat) + HEAD_LABEL@ + shown(base.input) + HEAD_OUTPUT@ + shown(base.output)
        + HEAD_END_EDGE@ + decimal(id as nat) + HEAD_END_LABEL@ + shown(base.output) + HEAD_CLOSE@
}

/// Whether the note of a node or flow shows the type of its context.
pub open spec fn shows_context(describer: D2Describer, description: Description) -> bool {
    description is Node && describer.show_context_in_node && description.base().context.name@.len()
        > 0
}

/// Whether the note of a node or flow shows its description.
pub open spec fn shows_description(describer: D2Describer, description: Description) -> bool {
    description.base().description is Some && describer.show_description
}

/// The note of a node or flow: its context and its description, as far as
/// they are to be shown, or nothing if neither is.
pub open spec fn drawn_note(describer: D2Describer, description: Description) -> Seq<char> {
    if shows_description(describer, description) || shows_context(describer, description) {
        NOTE_OPEN@ + (if shows_context(describer, description) {
            NOTE_CONTEXT@ + shown(description.base().context) + NOTE_BREAK@
        } else {
            Seq::empty()
        }) + (if shows_description(describer, description) {
            escaped(description.base().description->0@)
        } else {
            Seq::empty()
        }) + NOTE_CLOSE@
    } else {
        Seq::empty()
    }
}

/// An external resource, drawn under `id`.
pub open spec fn drawn_resource(resource: ExternalResource, id: u64) -> Seq<char> {
    decimal(id as nat) + COLON@ + shown(resource.ty) + RESOURCE_OUTPUT@ + shown(resource.output)
        + RESOURCE_NOTE@ + (match resource.description {
        Some(text) => escaped(text@),
        None => Seq::empty(),
    }) + RESOURCE_CLOSE@
}

/// The first `count` of the external resources, each drawn under its id.
pub open spec fn drawn_resources(resources: Seq<ExternalResource>, ids: Seq<u64>, count: int) -> Seq<
    char,
>
    decreases count,
{
    if count <= 0 {
        Seq::empty()
    } else {
        drawn_resources(resources, ids, count - 1) + drawn_resource(
            resources[count - 1],
            ids[count - 1],
        )
    }
}

/// The external resources that are drawn with a node or flow: all it has
/// if they are to be shown, none otherwise.
pub open spec fn resources_shown(describer: D2Describer, base: DescriptionBase) -> Seq<
    ExternalResource,
> {
    if describer.show_externals && base.externals is Some {
        base.externals->0@
    } else {
        Seq::empty()
    }
}

/// The id, the name and the class of a node or flow.
pub open spec fn drawn_title(description: Description, id: u64) -> Seq<char> {
    decimal(id as nat) + COLON@ + shown(description.base().ty) + BASE_CLASS@ + (
    if description is Node {
        NODE_CLASS@
    } else {
        FLOW_CLASS@
    }) + NEWLINE@
}

/// The start of a node or flow: its id and name, its class, its note and
/// its external resources.
pub open spec fn drawn_base(describer: D2Describer, description: Description, ids: DiagramIds) -> Seq<
    char,
> {
    drawn_title(description, ids.id) + drawn_note(describer, description) + drawn_resources(
        resources_shown(describer, description.base()),
        ids.externals@,
        resources_shown(describer, description.base()).len() as int,
    )
}

/// The start and the end of a flow with the given types.
pub open spec fn drawn_ends(base: DescriptionBase) -> Seq<char> {
    ENDS_CONTEXT@ + shown(base.context) + ENDS_INPUT@ + shown(base.input) + ENDS_OUTPUT@
        + shown(base.output) + ENDS_CLOSE@
}

/// What an end of an edge is called: the flow's own end by the name
/// `own_name`, a node by its id.
pub open spec fn drawn_ending(ids: DiagramIds, ending: EdgeEnding, own_name: Seq<char>) -> Seq<char> {
    match ending {
        EdgeEnding::ToFlow => own_name,
        EdgeEnding::ToNode { node_index } => decimal(ids.nodes@[node_index as int].id as nat),
    }
}

/// The type at an end of an edge: nothing at the flow's own ends, and at a
/// node its output where the edge starts and its input where the edge ends.
pub open spec fn ending_type(nodes: Seq<Description>, ending: EdgeEnding, start: bool) -> Seq<char> {
    match ending {
        EdgeEnding::ToFlow => QUOTES@,
        EdgeEnding::ToNode { node_index } => if start {
            shown(nodes[node_index as int].base().output)
        } else {
            shown(nodes[node_index as int].base().input)
        },
    }
}

/// An edge of a flow with the given nodes.
pub open spec fn drawn_edge(nodes: Seq<Description>, ids: DiagramIds, edge: Edge) -> Seq<char> {
    drawn_ending(ids, edge.start, START_NAME@) + EDGE_ARROW@ + drawn_ending(
        ids,
        edge.end,
        END_NAME@,
    ) + EDGE_SOURCE@ + ending_type(nodes, edge.start, true) + EDGE_TARGET@ + ending_type(
        nodes,
        edge.end,
        false,
    ) + EDGE_CLOSE@
}

/// The first `count` of the edges of a flow.
pub open spec fn drawn_edges(
    nodes: Seq<Description>,
    ids: DiagramIds,
    edges: Seq<Edge>,
    count: int,
) -> Seq<char>
    decreases count,
{
    if count <= 0 {
        Seq::empty()
    } else {
        drawn_edges(nodes, ids, edges, count - 1) + drawn_edge(nodes, ids, edges[count - 1])
    }
}

/// A node or flow with all it holds, drawn under the given ids.
pub open spec fn drawn(describer: D2Describer, description: Description, ids: DiagramIds) -> Seq<
    char,
>
    decreases description, 1int,
{
    match description {
        Description::Node { .. } => drawn_base(describer, description, ids) + CLOSE@,
        Description::Flow { base, nodes, edges } => drawn_base(describer, description, ids)
            + drawn_nodes(describer, description, ids, nodes@.len() as int) + drawn_ends(base)
            + drawn_edges(nodes@, ids, edges@, edges@.len() as int) + CLOSE@,
    }
}

/// The first `count` of the nodes of the flow `parent`, each drawn under
/// its ids.
pub open spec fn drawn_nodes(
    describer: D2Describer,
    parent: Description,
    ids: DiagramIds,
    count: int,
) -> Seq<char>
    decreases parent, 0int, count,
{
    if count <= 0 || !(parent is Flow) || count > parent->Flow_nodes@.len() {
        Seq::empty()
    } else {
        drawn_nodes(describer, parent, ids, count - 1) + drawn(
            describer,
            parent->Flow_nodes@[count - 1],
            ids.nodes@[count - 1],
        )
    }
}

/// Whether `ids` holds just the ids that drawing `description` takes: one
/// for each external resource that is shown, and ids in turn for each node
/// that a flow holds.
pub open spec fn ids_fit(describer: D2Describer, description: Description, ids: DiagramIds) -> bool
    decreases description,
{
    &&& ids.externals@.len() == resources_shown(describer, description.base()).len()
    &&& match description {
        Description::Node { .. } => ids.nodes@.len() == 0,
        Description::Flow { nodes, .. } => {
            &&& ids.nodes@.len() == nodes@.len()
            &&& forall|i: int|
                0 <= i < nodes@.len() ==> ids_fit(describer, #[trigger] nodes@[i], ids.nodes@[i])
        },
    }
}

/// The whole diagram of `description`, drawn under the given ids.
pub open spec fn diagram(describer: D2Describer, description: Description, ids: DiagramIds) -> Seq<
    char,
> {
    drawn_head(description.base(), ids.id) + drawn(describer, description, ids)
}

/// Appends the name of `ty`, as it is drawn, to `out`.
fn push_shown(out: &mut String, ty: &Type)
    ensures
        final(out)@ == old(out)@ + shown(*ty),
{
    if ty.name.as_str().unicode_len() == 0 {
        push_escaped(out, QUOTES);
    } else {
        push_escaped(out, ty.name.as_str());
    }
}

/// Appends the head of a diagram to `out`.
fn push_head(out: &mut String, base: &DescriptionBase, id: u64)
    ensures
        final(out)@ == old(out)@ + drawn_head(*base, id),
{
    out.append(HEAD_CONTEXT);
    push_shown(out, &base.context);
    out.append(HEAD_INPUT);
    push_shown(out, &base.input);
    out.append(HEAD_START_EDGE);
    push_decimal(out, id);
    out.append(HEAD_LABEL);
    push_shown(out, &base.input);
    out.append(HEAD_OUTPUT);
    push_shown(out, &base.output);
    out.append(HEAD_END_EDGE);
    push_decimal(out, id);
    out.append(HEAD_END_LABEL);
    push_shown(out, &base.output);
    out.append(HEAD_CLOSE);
}

/// Appends an external resource, drawn under `id`, to `out`.
fn push_resource(out: &mut String, resource: &ExternalResource, id: u64)
    ensures
        final(out)@ == old(out)@ + drawn_resource(*resource, id),
{
    push_decimal(out, id);
    out.append(COLON);
    push_shown(out, &resource.ty);
    out.append(RESOURCE_OUTPUT);
    push_shown(out, &resource.output);
    out.append(RESOURCE_NOTE);
    match &resource.description {
        Some(text) => {
            push_escaped(out, text.as_str());
        },
        None => {},
    }
    out.append(RESOURCE_CLOSE);
}

/// Appends the start and the end of a flow to `out`.
fn push_ends(out: &mut String, base: &DescriptionBase)
    ensures
        final(out)@ == old(out)@ + drawn_ends(*base),
{
    out.append(ENDS_CONTEXT);
    push_shown(out, &base.context);
    out.append(ENDS_INPUT);
    push_shown(out, &base.input);
    out.append(ENDS_OUTPUT);
    push_shown(out, &base.output);
    out.append(ENDS_CLOSE);
}

/// Appends what an end of an edge is called to `out`.
fn push_ending(out: &mut String, ids: &DiagramIds, ending: &EdgeEnding, own_name: &str)
    requires
        ending_fits(*ending, ids.nodes@.len() as int),
    ensures
        final(out)@ == old(out)@ + drawn_ending(*ids, *ending, own_name@),
{
    match ending {
        EdgeEnding::ToFlow => {
            out.append(own_name);
        },
        EdgeEnding::ToNode { node_index } => {
            push_decimal(out, ids.nodes[*node_index].id);
        },
    }
}

/// Appends the type at an end of an edge to `out`.
fn push_ending_type(out: &mut String, nodes: &Vec<Description>, ending: &EdgeEnding, start: bool)
    requires
        ending_fits(*ending, nodes@.len() as int),
    ensures
        final(out)@ == old(out)@ + ending_type(nodes@, *ending, start),
{
    match ending {
        EdgeEnding::ToFlow => {
            out.append(QUOTES);
        },
        EdgeEnding::ToNode { node_index } => {
            let base = nodes[*node_index].get_base_ref();
            if start {
                push_shown(out, &base.output);
            } else {
                push_shown(out, &base.input);
            }
        },
    }
}

/// Appends an edge of a flow to `out`.
fn push_edge(out: &mut String, nodes: &Vec<Description>, ids: &DiagramIds, edge: &Edge)
    requires
        ids.nodes@.len() == nodes@.len(),
        ending_fits(edge.start, nodes@.len() as int),
        ending_fits(edge.end, nodes@.len() as int),
    ensures
        final(out)@ == old(out)@ + drawn_edge(nodes@, *ids, *edge),
{
    push_ending(out, ids, &edge.start, START_NAME);
    out.append(EDGE_ARROW);
    push_ending(out, ids, &edge.end, END_NAME);
    out.append(EDGE_SOURCE);
    push_ending_type(out, nodes, &edge.start, true);
    out.append(EDGE_TARGET);
    push_ending_type(out, nodes, &edge.end, false);
    out.append(EDGE_CLOSE);
}

impl D2Describer {
    /// Appends the note of a node or flow to `out`.
    fn push_note(&self, out: &mut String, description: &Description)
        ensures
            final(out)@ == old(out)@ + drawn_note(*self, *description),
    {
        let base = description.get_base_ref();
        let is_node = match description {
            Description::Node { .. } => true,
            Description::Flow { .. } => false,
        };
        let has_description = base.description.is_some() && self.show_description;
        let show_context = is_node && self.show_context_in_node
            && base.context.name.as_str().unicode_len() > 0;
        if has_description || show_context {
            out.append(NOTE_OPEN);
            if show_context {
                out.append(NOTE_CONTEXT);
                push_shown(out, &base.context);
                out.append(NOTE_BREAK);
            }
            if has_description {
                match &base.description {
                    Some(text) => {
                        push_escaped(out, text.as_str());
                    },
                    None => {},
                }
            }
            out.append(NOTE_CLOSE);
        }
    }

    /// Appends the external resources that are drawn with a node or flow
    /// to `out`.
    fn push_resources(&self, out: &mut String, base: &DescriptionBase, ids: &Vec<u64>)
        requires
            ids@.len() == resources_shown(*self, *base).len(),
        ensures
            final(out)@ == old(out)@ + drawn_resources(
                resources_shown(*self, *base),
                ids@,
                resources_shown(*self, *base).len() as int,
            ),
    {
        let ghost resources = resources_shown(*self, *base);
        if self.show_externals {
            match &base.externals {
                Some(externals) => {
                    let mut index: usize = 0;
                    while index < externals.len()
                        invariant
                            index <= externals.len(),
                            externals@ == resources,
                            ids@.len() == resources.len(),
                            out@ == old(out)@ + drawn_resources(resources, ids@, index as int),
                        decreases externals.len() - index,
                    {
                        push_resource(out, &externals[index], ids[index]);
                        index += 1;
                    }
                },
                None => {
                },
            }
        } else {
        }
    }

    /// Appends the id, the name and the class of a node or flow to `out`.
    fn push_title(out: &mut String, description: &Description, id: u64)
        ensures
            final(out)@ == old(out)@ + drawn_title(*description, id),
    {
        push_decimal(out, id);
        out.append(COLON);
        push_shown(out, &description.get_base_ref().ty);
        out.append(BASE_CLASS);
        match description {
            Description::Node { .. } => {
                out.append(NODE_CLASS);
            },
            Description::Flow { .. } => {
                out.append(FLOW_CLASS);
            },
        }
        out.append(NEWLINE);
    }

    /// Appends the start of a node or flow to `out`: its id and name, its
    /// class, its note and its external resources.
    fn start_define_base(&self, description: &Description, ids: &DiagramIds, out: &mut String)
        requires
            ids.externals@.len() == resources_shown(*self, description.base()).len(),
        ensures
            final(out)@ == old(out)@ + drawn_base(*self, *description, *ids),
    {
        D2Describer::push_title(out, description, ids.id);
        self.push_note(out, description);
        self.push_resources(out, description.get_base_ref(), &ids.externals);
    }

    /// Appends a node or flow with all it holds to `out`.
    fn process(&self, description: &Description, ids: &DiagramIds, out: &mut String)
        requires
            edges_fit(*description),
            ids_fit(*self, *description, *ids),
        ensures
            final(out)@ == old(out)@ + drawn(*self, *description, *ids),
        decreases description,
    {
        self.start_define_base(description, ids, out);
        match description {
            Description::Node { .. } => {
                out.append(CLOSE);
            },
            Description::Flow { base, nodes, edges } => {
                let ghost started = out@;
                let mut index: usize = 0;
                while index < nodes.len()
                    invariant
                        index <= nodes.len(),
                        *description == (Description::Flow {
                            base: *base,
                            nodes: *nodes,
                            edges: *edges,
                        }),
                        edges_fit(*description),
                        ids_fit(*self, *description, *ids),
                        out@ == started + drawn_nodes(*self, *description, *ids, index as int),
                    decreases nodes.len() - index,
                {
                    self.process(&nodes[index], &ids.nodes[index], out);
                    index += 1;
                }
                push_ends(out, base);
                let ghost wired = out@;
                let mut index: usize = 0;
                while index < edges.len()
                    invariant
                        index <= edges.len(),
                        *description == (Description::Flow {
                            base: *base,
                            nodes: *nodes,
                            edges: *edges,
                        }),
                        edges_fit(*description),
                        ids.nodes@.len() == nodes@.len(),
                        out@ == wired + drawn_edges(nodes@, *ids, edges@, index as int),
                    decreases edges.len() - index,
                {
                    push_edge(out, nodes, ids, &edges[index]);
                    index += 1;
                }
                out.append(CLOSE);
            },
        }
    }

    /// Draws the ids that drawing `description` takes.
    pub fn draw_ids(&self, description: &Description) -> (ids: DiagramIds)
        ensures
            ids_fit(*self, *description, ids),
        decreases description,
    {
        let base = description.get_base_ref();
        let id = random_id();
        let mut externals: Vec<u64> = Vec::new();
        if self.show_externals {
            match &base.externals {
                Some(resources) => {
                    let mut index: usize = 0;
                    while index < resources.len()
                        invariant
                            index <= resources.len(),
                            externals@.len() == index,
                        decreases resources.len() - index,
                    {
                        externals.push(random_id());
                        index += 1;
                    }
                },
                None => {},
            }
        }
        let mut nodes: Vec<DiagramIds> = Vec::new();
        match description {
            Description::Node { .. } => {},
            Description::Flow { nodes: held, .. } => {
                let mut index: usize = 0;
                while index < held.len()
                    invariant
                        index <= held.len(),
                        description is Flow,
                        description->Flow_nodes == *held,
                        nodes@.len() == index,
                        forall|i: int|
                            0 <= i < index ==> ids_fit(*self, #[trigger] held@[i], nodes@[i]),
                    decreases held.len() - index,
                {
                    nodes.push(self.draw_ids(&held[index]));
                    index += 1;
                }
            },
        }
        DiagramIds { id, externals, nodes }
    }

    /// Draws the diagram of `description` under the given ids.
    pub fn format_with_ids(&self, description: &Description, ids: &DiagramIds) -> (text: String)
        requires
            edges_fit(*description),
            ids_fit(*self, *description, *ids),
        ensures
            text@ == diagram(*self, *description, *ids),
    {
        let mut text = String::new();
        push_head(&mut text, description.get_base_ref(), ids.id);
        self.process(description, ids, &mut text);
        text
    }

    /// Draws the diagram of `description`. The ids under which its parts
    /// appear are drawn at random.
    #[must_use]
    pub fn format(&self, description: &Description) -> (text: String)
        requires
            edges_fit(*description),
        ensures
            exists|ids: DiagramIds| #[trigger]
                ids_fit(*self, *description, ids) && text@ == diagram(*self, *description, ids),
    {
        let ids = self.draw_ids(description);
        self.format_with_ids(description, &ids)
    }
}

/// Whether `ending` names the flow or one of its first `count` nodes.
fn fits(ending: &EdgeEnding, count: usize) -> (fitting: bool)
    ensures
        fitting == ending_fits(*ending, count as int),
{
    match ending {
        EdgeEnding::ToFlow => true,
        EdgeEnding::ToNode { node_index } => *node_index < count,
    }
}

/// Checks that every edge of `description`, and of every flow it holds,
/// runs between nodes that the flow has. Only such a description can be
/// drawn.
pub fn has_fitting_edges(description: &Description) -> (fitting: bool)
    ensures
        fitting == edges_fit(*description),
    decreases description,
{
    match description {
        Description::Node { .. } => true,
        Description::Flow { nodes, edges, .. } => {
            let mut index: usize = 0;
            while index < edges.len()
                invariant
                    index <= edges.len(),
                    description is Flow,
                    description->Flow_nodes == *nodes,
                    description->Flow_edges == *edges,
                    forall|i: int|
                        0 <= i < index ==> ending_fits(
                            (#[trigger] edges@[i]).start,
                            nodes@.len() as int,
                        ) && ending_fits(edges@[i].end, nodes@.len() as int),
                decreases edges.len() - index,
            {
                if !fits(&edges[index].start, nodes.len()) || !fits(&edges[index].end, nodes.len()) {
                    return false;
                }
                index += 1;
            }
            let mut index: usize = 0;
            while index < nodes.len()
                invariant
                    index <= nodes.len(),
                    description is Flow,
                    description->Flow_nodes == *nodes,
                    description->Flow_edges == *edges,
                    forall|i: int|
                        0 <= i < edges@.len() ==> ending_fits(
                            (#[trigger] edges@[i]).start,
                            nodes@.len() as int,
                        ) && ending_fits(edges@[i].end, nodes@.len() as int),
                    forall|i: int| 0 <= i < index ==> edges_fit(#[trigger] nodes@[i]),
                decreases nodes.len() - index,
            {
                if !has_fitting_edges(&nodes[index]) {
                    return false;
                }
                index += 1;
            }
            true
        },
    }
}

} // verus!
