//! The fixed texts that diagrams are made of.

use vstd::prelude::*;

verus! {

/// The head of every diagram, up to the type of the context.
pub const HEAD_CONTEXT: &'static str = "direction: down\nclasses: {\n    node: {\n        style.border-radius: 8\n    }\n    flow: {\n        style.border-radius: 8\n    }\n    edge: {\n        style.font-size: 18\n    }\n    node_flow_description: {\n        shape: page\n    }\n    external_resource: {\n        shape: parallelogram\n    }\n    start_end: {\n        shape: oval\n        style.italic: true\n    }\n}\nStart: {\n    class: start_end\n    desc: |md\n      **Context**: ";

/// Between the context and the input in the head of a diagram.
pub const HEAD_INPUT: &'static str = "\\\n      **Input**: ";

/// From the input in the head of a diagram to the id at the start edge.
pub const HEAD_START_EDGE: &'static str = "\n    |\n}\nStart -> ";

/// Between an id and the label of the edge it stands at.
pub const HEAD_LABEL: &'static str = ": ";

/// From the label of the start edge to the output in the head of a diagram.
pub const HEAD_OUTPUT: &'static str = " {\n    class: edge\n}\nEnd: {\n    class: start_end\n    desc: |md\n      **Output**: ";

/// From the output in the head of a diagram to the id at the end edge.
pub const HEAD_END_EDGE: &'static str = "\n    |\n}\n";

/// Between the id and the label of the end edge.
pub const HEAD_END_LABEL: &'static str = " -> End: ";

/// The end of the head of a diagram.
pub const HEAD_CLOSE: &'static str = " {\n    class: edge\n}\n";

/// Between the name of a node or flow and its class.
pub const BASE_CLASS: &'static str = " {\n                class: ";

/// The start of the note of a node or flow.
pub const NOTE_OPEN: &'static str = "desc: |md\n";

/// Before the context in a note.
pub const NOTE_CONTEXT: &'static str = "**Context**: ";

/// After the context in a note.
pub const NOTE_BREAK: &'static str = "<br/>\n";

/// The end of a note.
pub const NOTE_CLOSE: &'static str = "\n                | {\n                    class: node_flow_description\n                }\n";

/// Between the name of an external resource and its output.
pub const RESOURCE_OUTPUT: &'static str = " {\n                    class: external_resource\n                    desc: |md\n                        **output**: ";

/// Between the output of an external resource and its description.
pub const RESOURCE_NOTE: &'static str = "\\\n                        ";

/// The end of an external resource.
pub const RESOURCE_CLOSE: &'static str = "\n                    |\n                }\n";

/// The start and end of a flow, up to the type of its context.
pub const ENDS_CONTEXT: &'static str = "start: Start {\n                class: start_end\n                desc: |md\n                    **Context**: ";

/// Between the context and the input at the start of a flow.
pub const ENDS_INPUT: &'static str = "\\\n                    **Input**: ";

/// From the input at the start of a flow to the output at its end.
pub const ENDS_OUTPUT: &'static str = "\n                |\n            }\n            end: End {\n                class: start_end\n                desc: |md\n                    **Output**: ";

/// After the output at the end of a flow.
pub const ENDS_CLOSE: &'static str = "\n                |\n            }\n";

/// Between the two ends of an edge.
pub const EDGE_ARROW: &'static str = " -> ";

/// Between the ends of an edge and the type at its source.
pub const EDGE_SOURCE: &'static str = ": {\n                    class: edge\n                    source-arrowhead: ";

/// Between the types at the source and at the target of an edge.
pub const EDGE_TARGET: &'static str = "\n                    target-arrowhead: ";

/// The end of an edge.
pub const EDGE_CLOSE: &'static str = "\n                }\n";

/// What stands for a type without a name.
pub const QUOTES: &'static str = "\"\"";

/// Between an id and the name it stands for.
pub const COLON: &'static str = ":";

/// The class of a node.
pub const NODE_CLASS: &'static str = "node";

/// The class of a flow.
pub const FLOW_CLASS: &'static str = "flow";

/// The end of a line.
pub const NEWLINE: &'static str = "\n";

/// The name of the start of a flow.
pub const START_NAME: &'static str = "start";

/// The name of the end of a flow.
pub const END_NAME: &'static str = "end";

/// The end of a node or flow.
pub const CLOSE: &'static str = "}\n";

} // verus!
