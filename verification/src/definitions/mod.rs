//! Contains `/Definitions` node-related stuff.

use vstd::prelude::*;
use crate::error::{Error, Result};
use crate::event::{first_string, first_text, EventReader, FbxEvent};
use crate::node_loader::{
    cells_at, children, ignore_current_node, loader_ends_with_its_node, name_at, skipped, NodeLoad,
    NodeLoader, NodeLoaderCommon, RawNodeInfo,
};
use crate::text::same_text;

pub mod template;

pub use self::template::{PropertyTemplate, PropertyTemplates, PropertyTemplatesLoader};
use self::template::{Templates, TemplatesState};

verus! {

/// The definitions of a scene: the templates of default properties.
#[derive(Debug, Clone)]
pub struct Definitions {
    pub templates: PropertyTemplates,
}

impl View for Definitions {
    type V = Templates;

    open spec fn view(&self) -> Templates {
        self.templates@
    }
}

#[derive(Debug)]
pub struct DefinitionsLoader {
    pub templates: PropertyTemplates,
}

impl DefinitionsLoader {
    pub fn new() -> (r: Self)
        ensures
            r.state() == Map::<(Seq<char>, Seq<char>), template::Properties>::empty(),
    {
        DefinitionsLoader { templates: PropertyTemplates::new() }
    }
}

impl NodeLoaderCommon for DefinitionsLoader {
    type Target = Definitions;

    type State = Templates;

    type Outcome = Templates;

    open spec fn state(&self) -> Templates {
        self.templates@
    }

    open spec fn outcome(target: &Definitions) -> Templates {
        target@
    }

    open spec fn finish(state: Templates) -> Option<Templates> {
        Some(state)
    }

    open spec fn always_loads() -> bool {
        true
    }

    open spec fn refuses_with(e: Error) -> bool {
        false
    }

    fn on_finish(self) -> (r: Result<Definitions>) {
        Ok(Definitions { templates: self.templates })
    }
}

impl NodeLoader for DefinitionsLoader {
    /// A child `ObjectType` whose first cell is text, the name of the object
    /// type, is loaded as the templates of that type. Any other child is
    /// skipped.
    open spec fn child(state: Templates, events: Seq<FbxEvent>, pos: int) -> Option<(Templates, int)> {
        if name_at(events, pos) == "ObjectType"@ && first_text(cells_at(events, pos)) is Some {
            match children::<PropertyTemplatesLoader>(
                TemplatesState {
                    templates: state,
                    object_type: first_text(cells_at(events, pos))->0,
                },
                events,
                pos,
            ) {
                Some((after, end)) => Some((after.templates, end)),
                None => None,
            }
        } else {
            skipped(state, events, pos)
        }
    }

    proof fn child_ends_with_its_node(state: Self::State, events: Seq<FbxEvent>, pos: int) {
        if first_text(cells_at(events, pos)) is Some {
            loader_ends_with_its_node::<PropertyTemplatesLoader>(
                TemplatesState { templates: state, object_type: first_text(cells_at(events, pos))->0 },
                events,
                pos,
            );
        }
    }

    fn on_child_node(&mut self, reader: &mut EventReader<'_>, node_info: RawNodeInfo<'_>) -> (r:
        Result<()>) {
        let RawNodeInfo { name, properties } = node_info;
        if same_text(name, "ObjectType") {
            match first_string(properties) {
                Some(object_type) => {
                    let mut templates = PropertyTemplates::new();
                    std::mem::swap(&mut self.templates, &mut templates);
                    match PropertyTemplatesLoader::new(templates, object_type).load(reader) {
                        Ok(loaded) => {
                            self.templates = loaded;
                            Ok(())
                        },
                        Err(e) => Err(e),
                    }
                },
                None => ignore_current_node(reader),
            }
        } else {
            ignore_current_node(reader)
        }
    }
}

} // verus!
