use node_flow::describe::{
    has_fitting_edges, push_decimal, D2Describer, Description, DescriptionBase, DiagramIds, Edge,
    EdgeEnding, ExternalResource, Type,
};

fn named(name: &str) -> Type {
    Type::named(name.to_owned())
}

fn base_of(name: &str, input: &str, output: &str, context: &str) -> DescriptionBase {
    DescriptionBase::from(named(name), named(input), named(output), named("E"), named(context))
}

fn ids(id: u64, externals: Vec<u64>, nodes: Vec<DiagramIds>) -> DiagramIds {
    DiagramIds { id, externals, nodes }
}

fn escape(val: &str) -> String {
    val.replace('<', "\\<")
        .replace('>', "\\>")
        .replace('{', "\\{")
        .replace('}', "\\}")
}

fn name_of(ty: &Type) -> String {
    if ty.name.is_empty() {
        "\"\"".to_owned()
    } else {
        escape(&ty.name)
    }
}

/// The text that a diagram is expected to be, put together from the
/// templates of the diagram language.
fn expected(describer: &D2Describer, desc: &Description, ids: &DiagramIds) -> String {
    let base = desc.get_base_ref();
    let mut res = format!(
        r"direction: down
classes: {{
    node: {{
        style.border-radius: 8
    }}
    flow: {{
        style.border-radius: 8
    }}
    edge: {{
        style.font-size: 18
    }}
    node_flow_description: {{
        shape: page
    }}
    external_resource: {{
        shape: parallelogram
    }}
    start_end: {{
        shape: oval
        style.italic: true
    }}
}}
Start: {{
    class: start_end
    desc: |md
      **Context**: {context}\
      **Input**: {input}
    |
}}
Start -> {id}: {input} {{
    class: edge
}}
End: {{
    class: start_end
    desc: |md
      **Output**: {output}
    |
}}
{id} -> End: {output} {{
    class: edge
}}
",
        id = ids.id,
        context = name_of(&base.context),
        input = name_of(&base.input),
        output = name_of(&base.output),
    );
    expected_body(describer, desc, ids, &mut res);
    res
}

fn expected_body(describer: &D2Describer, desc: &Description, ids: &DiagramIds, out: &mut String) {
    let base = desc.get_base_ref();
    let is_node = matches!(desc, Description::Node { .. });
    out.push_str(&format!(
        r"{}:{} {{
                class: {}",
        ids.id,
        name_of(&base.ty),
        if is_node { "node" } else { "flow" }
    ));
    out.push('\n');
    let has_description = base.description.is_some() && describer.show_description;
    let show_context = is_node && describer.show_context_in_node && !base.context.name.is_empty();
    if has_description || show_context {
        out.push_str("desc: |md\n");
        if show_context {
            out.push_str(&format!(r"**Context**: {}<br/>", name_of(&base.context)));
            out.push('\n');
        }
        if has_description {
            out.push_str(&escape(base.description.as_ref().unwrap()));
        }
        out.push_str(
            "
                | {
                    class: node_flow_description
                }",
        );
        out.push('\n');
    }
    if describer.show_externals {
        if let Some(externals) = &base.externals {
            for (resource, ext_id) in externals.iter().zip(ids.externals.iter()) {
                out.push_str(&format!(
                    r"{}:{} {{
                    class: external_resource
                    desc: |md
                        **output**: {}\
                        {}
                    |
                }}",
                    ext_id,
                    name_of(&resource.ty),
                    name_of(&resource.output),
                    escape(resource.description.as_deref().unwrap_or_default()),
                ));
                out.push('\n');
            }
        }
    }
    let Description::Flow { base, nodes, edges } = desc else {
        out.push_str("}\n");
        return;
    };
    for (node, node_ids) in nodes.iter().zip(ids.nodes.iter()) {
        expected_body(describer, node, node_ids, out);
    }
    out.push_str(&format!(
        r"start: Start {{
                class: start_end
                desc: |md
                    **Context**: {context}\
                    **Input**: {input}
                |
            }}
            end: End {{
                class: start_end
                desc: |md
                    **Output**: {output}
                |
            }}",
        context = name_of(&base.context),
        input = name_of(&base.input),
        output = name_of(&base.output)
    ));
    out.push('\n');
    for Edge { start, end } in edges {
        let start_type = match start {
            EdgeEnding::ToFlow => {
                out.push_str("start");
                "\"\"".to_owned()
            }
            EdgeEnding::ToNode { node_index } => {
                out.push_str(&ids.nodes[*node_index].id.to_string());
                name_of(&nodes[*node_index].get_base_ref().output)
            }
        };
        out.push_str(" -> ");
        let end_type = match end {
            EdgeEnding::ToFlow => {
                out.push_str("end");
                "\"\"".to_owned()
            }
            EdgeEnding::ToNode { node_index } => {
                out.push_str(&ids.nodes[*node_index].id.to_string());
                name_of(&nodes[*node_index].get_base_ref().input)
            }
        };
        out.push_str(&format!(
            r": {{
                    class: edge
                    source-arrowhead: {start_type}
                    target-arrowhead: {end_type}
                }}",
        ));
        out.push('\n');
    }
    out.push_str("}\n");
}

fn sample_flow() -> Description {
    let first = Description::new_node(base_of("a::First<u8>", "u8", "Vec<u8>", "Ctx"))
        .with_description("takes {bytes}".to_owned())
        .with_externals(vec![
            ExternalResource::new(named("Db<Row>"), named("Row")),
            ExternalResource::new(named("Cache"), Type::unnamed())
                .with_description("keeps <things>".to_owned()),
        ]);
    let second = Description::new_node(base_of("Second", "Vec<u8>", "", ""));
    let inner = Description::new_flow(
        base_of("Inner", "u8", "u16", "Ctx"),
        vec![second.clone()],
        vec![Edge::flow_to_node(0), Edge::node_to_flow(0)],
    );
    Description::new_flow(
        base_of("Outer", "u8", "Out<T>", "Ctx"),
        vec![first, second, inner],
        vec![
            Edge::flow_to_node(0),
            Edge::node_to_node(0, 1),
            Edge::node_to_node(1, 2),
            Edge::node_to_flow(2),
            Edge::passthrough(),
        ],
    )
    .with_description("the whole".to_owned())
}

fn sample_ids(with_externals: bool) -> DiagramIds {
    let externals = if with_externals { vec![70, 80] } else { vec![] };
    ids(
        1,
        vec![],
        vec![
            ids(20, externals, vec![]),
            ids(0, vec![], vec![]),
            ids(18446744073709551615, vec![], vec![ids(405, vec![], vec![])]),
        ],
    )
}

#[test]
fn diagram_of_a_single_node() {
    let describer = D2Describer::new();
    let node = Description::new_node(base_of("Node<T>", "In", "Out", "Ctx"));
    let ids = ids(42, vec![], vec![]);
    let text = describer.format_with_ids(&node, &ids);
    assert_eq!(text, expected(&describer, &node, &ids));
    assert!(text.starts_with("direction: down\nclasses: {\n    node: {\n"));
    assert!(text.contains("Start -> 42: In {\n    class: edge\n}\n"));
    assert!(text.ends_with("42:Node\\<T\\> {\n                class: node\n}\n"));
}

#[test]
fn diagram_of_nested_flows() {
    let describer = D2Describer::new();
    let flow = sample_flow();
    let ids = sample_ids(false);
    let text = describer.format_with_ids(&flow, &ids);
    assert_eq!(text, expected(&describer, &flow, &ids));
    assert!(text.contains("20 -> 0: {\n"));
    assert!(text.contains("source-arrowhead: Vec\\<u8\\>\n"));
    assert!(text.contains("18446744073709551615 -> end: {\n"));
    assert!(text.contains("start -> end: {\n"));
    assert!(!text.contains("the whole"));
}

#[test]
fn diagram_shows_what_the_describer_is_set_to_show() {
    let mut describer = D2Describer::new();
    describer.show_description = true;
    describer.show_context_in_node = true;
    describer.show_externals = true;
    let flow = sample_flow();
    let ids = sample_ids(true);
    let text = describer.format_with_ids(&flow, &ids);
    assert_eq!(text, expected(&describer, &flow, &ids));
    assert!(text.contains("desc: |md\n**Context**: Ctx<br/>\ntakes \\{bytes\\}\n"));
    assert!(text.contains("70:Db\\<Row\\> {\n"));
    assert!(text.contains("**output**: \"\"\\\n                        keeps \\<things\\>\n"));
    assert!(text.contains("the whole"));
}

#[test]
fn diagram_with_random_ids_has_the_same_frame() {
    let describer = D2Describer::new();
    let node = Description::new_node(base_of("Node", "In", "Out", "Ctx"));
    let text = describer.format(&node);
    assert!(text.starts_with("direction: down\nclasses: {\n"));
    assert!(text.ends_with(":Node {\n                class: node\n}\n"));
    let drawn = describer.draw_ids(&sample_flow());
    assert!(drawn.externals.is_empty());
    assert_eq!(drawn.nodes.len(), 3);
    assert_eq!(drawn.nodes[2].nodes.len(), 1);
    assert!(drawn.nodes[0].externals.is_empty());
    let mut showing = D2Describer::new();
    showing.show_externals = true;
    assert_eq!(showing.draw_ids(&sample_flow()).nodes[0].externals.len(), 2);
}

#[test]
fn edges_must_run_between_nodes_that_are_there() {
    assert!(has_fitting_edges(&sample_flow()));
    assert!(has_fitting_edges(&Description::new_node(base_of("N", "", "", ""))));
    let dangling = Description::new_flow(
        base_of("Flow", "", "", ""),
        vec![Description::new_node(base_of("N", "", "", ""))],
        vec![Edge::node_to_flow(1)],
    );
    assert!(!has_fitting_edges(&dangling));
    let nested = Description::new_flow(base_of("Flow", "", "", ""), vec![dangling], vec![]);
    assert!(!has_fitting_edges(&nested));
    let empty = Description::new_flow(base_of("Flow", "", "", ""), vec![], vec![Edge::flow_to_node(0)]);
    assert!(!has_fitting_edges(&empty));
}

#[test]
fn decimal_writes_numbers_as_rust_does() {
    for number in [0u64, 7, 10, 99, 100, 1234567890, u64::MAX] {
        let mut text = "x".to_owned();
        push_decimal(&mut text, number);
        assert_eq!(text, format!("x{number}"));
    }
}

fn last_segment(name: &str) -> String {
    name.rsplit("::").next().unwrap_or_default().to_owned()
}

#[test]
fn shown_names_are_short_where_asked_for() {
    let mut describer = D2Describer::new();
    let long = Description::new_flow(
        DescriptionBase::from(
            named("a::b::Flow"),
            named("core::In"),
            Type::unnamed(),
            named("::"),
            named("Ctx"),
        )
        .with_externals(vec![ExternalResource::new(named("x::Db"), named("y::Row"))]),
        vec![Description::new_node(base_of("m::Node", "m::I", "m::O", ""))],
        vec![Edge::flow_to_node(0)],
    );
    let shown = describer.with_shown_names(&long, &last_segment);
    let base = shown.get_base_ref();
    assert_eq!(base.ty.name, "Flow");
    assert_eq!(base.input.name, "In");
    // an unnamed type stays unnamed, and a name that shortens to nothing
    // stays as it is
    assert_eq!(base.output.name, "");
    assert_eq!(base.error.name, "::");
    assert_eq!(base.context.name, "Ctx");
    let externals = base.externals.as_ref().unwrap();
    assert_eq!(externals[0].ty.name, "Db");
    assert_eq!(externals[0].output.name, "Row");
    match &shown {
        Description::Flow { nodes, edges, .. } => {
            assert_eq!(nodes[0].get_base_ref().ty.name, "Node");
            assert_eq!(nodes[0].get_base_ref().context.name, "");
            assert_eq!(edges, &vec![Edge::flow_to_node(0)]);
        }
        Description::Node { .. } => panic!("a flow was shown as a node"),
    }

    describer.simple_type_name = false;
    let shown = describer.with_shown_names(&long, &last_segment);
    assert_eq!(shown.get_base_ref().ty.name, "a::b::Flow");
    assert_eq!(
        describer.shown_type(&named("a::B"), &last_segment).name,
        "a::B"
    );
}

#[test]
fn format_with_draws_short_names() {
    let describer = D2Describer::new();
    let node = Description::new_node(base_of(
        "alloc::vec::Vec<alloc::string::String>",
        "core::option::Option<u8>",
        "u16",
        "my::Ctx",
    ));
    let text = describer.format_with(&node, &|name: &str| tynm::TypeName::from(name).as_str());
    assert!(text.contains("**Context**: Ctx\\\n      **Input**: Option\\<u8\\>\n"));
    assert!(text.ends_with(":Vec\\<String\\> {\n                class: node\n}\n"));
    let text = describer.format_with(&node, &last_segment);
    assert!(text.contains("**Context**: Ctx\\\n"));
}
