//! Descriptions of nodes and flows: what they are called, what goes in
//! and out of them, and how the nodes of a flow are wired together.

mod d2;
mod d2_names;
pub mod d2_parts;
mod d2_text;
mod design;
mod names;

pub use d2::{
    diagram, drawn, drawn_base, drawn_edge, drawn_edges, drawn_ending, drawn_head, drawn_nodes,
    drawn_note, drawn_ends, drawn_resource, drawn_resources, drawn_title, edges_fit, ending_fits,
    ending_type, has_fitting_edges, ids_fit, resources_shown, shown, shows_context,
    shows_description, D2Describer, DiagramIds,
};
pub use d2_names::{
    lemma_shown_edges_fit, shows, shows_base, shows_resource, shows_type,
};
pub use d2_text::{
    decimal, digit_char, escape_str, escaped, is_markup, push_decimal, push_escaped,
};

pub use design::{
    Description, DescriptionBase, Edge, EdgeEnding, ExternalResource, Type,
};
pub use names::{
    generics_start, has_infix, lemma_generics_start, remove_generics_from_name, stands_at,
    strip_output_wrapper, unwrapped_output, OUTPUT_WRAPPER,
};
