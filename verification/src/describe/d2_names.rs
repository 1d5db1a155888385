use super::d2::{diagram, edges_fit, ending_fits, ids_fit, D2Describer, DiagramIds};
use super::design::{Description, DescriptionBase, ExternalResource, Type};
use vstd::prelude::*;

verus! {

/// Whether `shown` is the name that the type `ty` is drawn under, where
/// `shorten` is what shortens names. An unnamed type stays unnamed. With
/// short names asked for, a type goes by what `shorten` makes of its name,
/// unless that is empty; in every other case it goes by its own name.
pub open spec fn shows_type<F: Fn(&str) -> String>(
    describer: D2Describer,
    shorten: F,
    ty: Type,
    shown: Type,
) -> bool {
    if ty.name@.len() == 0 || !describer.simple_type_name {
        shown.name@ == ty.name@
    } else {
        exists|given: &str, simple: String| #[trigger]
            shorten.ensures((given,), simple) && given@ == ty.name@ && shown.name@ == (
            if simple@.len() > 0 {
                simple@
            } else {
                ty.name@
            })
    }
}

/// Whether `shown` is the external resource `resource` with its types
/// under the names that they are drawn under.
pub open spec fn shows_resource<F: Fn(&str) -> String>(
    describer: D2Describer,
    shorten: F,
    resource: ExternalResource,
    shown: ExternalResource,
) -> bool {
    &&& shows_type(describer, shorten, resource.ty, shown.ty)
    &&& shows_type(describer, shorten, resource.output, shown.output)
    &&& shown.description == resource.description
}

/// Whether `shown` is the base `base` with its types, and those of its
/// external resources, under the names that they are drawn under.
pub open spec fn shows_base<F: Fn(&str) -> String>(
    describer: D2Describer,
    shorten: F,
    base: DescriptionBase,
    shown: DescriptionBase,
) -> bool {
    &&& shows_type(describer, shorten, base.ty, shown.ty)
    &&& shows_type(describer, shorten, base.input, shown.input)
    &&& shows_type(describer, shorten, base.output, shown.output)
    &&& shows_type(describer, shorten, base.error, shown.error)
    &&& shows_type(describer, shorten, base.context, shown.context)
    &&& shown.description == base.description
    &&& match (base.externals, shown.externals) {
        (Some(resources), Some(shown_resources)) => {
            &&& shown_resources@.len() == resources@.len()
            &&& forall|i: int|
                0 <= i < resources@.len() ==> shows_resource(
                    describer,
                    shorten,
                    resources@[i],
                    #[trigger] shown_resources@[i],
                )
        },
        (None, None) => true,
        _ => false,
    }
}

/// Whether `shown` is the description `description` with every type under
/// the name that it is drawn under: the two are of the same kind and, for
/// flows, hold the same number of nodes, wired by the same edges.
pub open spec fn shows<F: Fn(&str) -> String>(
    describer: D2Describer,
    shorten: F,
    description: Description,
    shown: Description,
) -> bool
    decreases description,
{
    match (description, shown) {
        (Description::Node { base }, Description::Node { base: shown_base }) => shows_base(
            describer,
            shorten,
            base,
            shown_base,
        ),
        (
            Description::Flow { base, nodes, edges },
            Description::Flow { base: shown_base, nodes: shown_nodes, edges: shown_edges },
        ) => {
            &&& shows_base(describer, shorten, base, shown_base)
            &&& shown_edges@ == edges@
            &&& shown_nodes@.len() == nodes@.len()
            &&& forall|i: int|
                0 <= i < nodes@.len() ==> shows(
                    describer,
                    shorten,
                    nodes@[i],
                    #[trigger] shown_nodes@[i],
                )
        },
        _ => false,
    }
}

/// A description whose edges fit keeps fitting edges when its types are
/// put under the names that they are drawn under.
pub proof fn lemma_shown_edges_fit<F: Fn(&str) -> String>(
    describer: D2Describer,
    shorten: F,
    description: Description,
    shown: Description,
)
    requires
        shows(describer, shorten, description, shown),
        edges_fit(description),
    ensures
        edges_fit(shown),
    decreases description,
{
    match (description, shown) {
        (
            Description::Flow { base, nodes, edges },
            Description::Flow { base: shown_base, nodes: shown_nodes, edges: shown_edges },
        ) => {
            assert forall|i: int| 0 <= i < shown_nodes@.len() implies edges_fit(
                #[trigger] shown_nodes@[i],
            ) by {
                lemma_shown_edges_fit(describer, shorten, nodes@[i], shown_nodes@[i]);
            }
        },
        _ => {},
    }
}

impl D2Describer {
    /// The type `ty` under the name that it is drawn under, where `shorten`
    /// is what shortens names.
    pub fn shown_type<F: Fn(&str) -> String>(&self, ty: &Type, shorten: &F) -> (shown: Type)
        requires
            forall|name: &str| shorten.requires((name,)),
        ensures
            shows_type(*self, *shorten, *ty, shown),
    {
        if !self.simple_type_name || ty.name.as_str().unicode_len() == 0 {
            return ty.clone();
        }
        let simple = shorten(ty.name.as_str());
        Type::named(self.get_type_name(ty, simple))
    }

    /// The base `base` with its types, and those of its external
    /// resources, under the names that they are drawn under.
    pub fn shown_base<F: Fn(&str) -> String>(&self, base: &DescriptionBase, shorten: &F) -> (shown:
        DescriptionBase)
        requires
            forall|name: &str| shorten.requires((name,)),
        ensures
            shows_base(*self, *shorten, *base, shown),
    {
        let externals = match &base.externals {
            Some(resources) => {
                let mut shown_resources: Vec<ExternalResource> = Vec::new();
                let mut index: usize = 0;
                while index < resources.len()
                    invariant
                        index <= resources.len(),
                        forall|name: &str| shorten.requires((name,)),
                        shown_resources@.len() == index,
                        forall|i: int|
                            0 <= i < index ==> shows_resource(
                                *self,
                                *shorten,
                                resources@[i],
                                #[trigger] shown_resources@[i],
                            ),
                    decreases resources.len() - index,
                {
                    let resource = &resources[index];
                    shown_resources.push(
                        ExternalResource {
                            ty: self.shown_type(&resource.ty, shorten),
                            description: match &resource.description {
                                Some(text) => Some(text.clone()),
                                None => None,
                            },
                            output: self.shown_type(&resource.output, shorten),
                        },
                    );
                    index += 1;
                }
                Some(shown_resources)
            },
            None => None,
        };
        DescriptionBase {
            ty: self.shown_type(&base.ty, shorten),
            input: self.shown_type(&base.input, shorten),
            output: self.shown_type(&base.output, shorten),
            error: self.shown_type(&base.error, shorten),
            context: self.shown_type(&base.context, shorten),
            description: match &base.description {
                Some(text) => Some(text.clone()),
                None => None,
            },
            externals,
        }
    }

    /// The description with every type under the name that it is drawn
    /// under, where `shorten` is what shortens names.
    pub fn with_shown_names<F: Fn(&str) -> String>(&self, description: &Description, shorten: &F) -> (shown:
        Description)
        requires
            forall|name: &str| shorten.requires((name,)),
        ensures
            shows(*self, *shorten, *description, shown),
        decreases description,
    {
        match description {
            Description::Node { base } => Description::Node {
                base: self.shown_base(base, shorten),
            },
            Description::Flow { base, nodes, edges } => {
                let mut shown_nodes: Vec<Description> = Vec::new();
                let mut index: usize = 0;
                while index < nodes.len()
                    invariant
                        index <= nodes.len(),
                        forall|name: &str| shorten.requires((name,)),
                        description is Flow,
                        description->Flow_nodes == *nodes,
                        shown_nodes@.len() == index,
                        forall|i: int|
                            0 <= i < index ==> shows(
                                *self,
                                *shorten,
                                nodes@[i],
                                #[trigger] shown_nodes@[i],
                            ),
                    decreases nodes.len() - index,
                {
                    shown_nodes.push(self.with_shown_names(&nodes[index], shorten));
                    index += 1;
                }
                let shown_edges = edges.clone();
                Description::Flow {
                    base: self.shown_base(base, shorten),
                    nodes: shown_nodes,
                    edges: shown_edges,
                }
            },
        }
    }

    /// Draws the diagram of `description` as the describer is set to, with
    /// `shorten` for shortening the names of types. The ids under which
    /// the parts of the diagram appear are drawn at random.
    pub fn format_with<F: Fn(&str) -> String>(&self, description: &Description, shorten: &F) -> (text:
        String)
        requires
            edges_fit(*description),
            forall|name: &str| shorten.requires((name,)),
        ensures
            exists|shown: Description, ids: DiagramIds|
                shows(*self, *shorten, *description, shown) && #[trigger] ids_fit(
                    *self,
                    shown,
                    ids,
                ) && text@ == diagram(*self, shown, ids),
    {
        let shown = self.with_shown_names(description, shorten);
        proof {
            lemma_shown_edges_fit(*self, *shorten, *description, shown);
        }
        let ids = self.draw_ids(&shown);
        self.format_with_ids(&shown, &ids)
    }
}

} // verus!
