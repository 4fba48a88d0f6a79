//! Contains `/Definitions/PropertyTemplate` node-related stuff.

use vstd::prelude::*;
use crate::error::{Error, Result};
use crate::event::{first_string, first_text, EventReader, FbxEvent};
use crate::node_loader::{
    cells_at, children, ignore_current_node, loader_ends_with_its_node, name_at, skipped, NodeLoad,
    NodeLoader, NodeLoaderCommon, RawNodeInfo,
};
use crate::property::property_node::PropertyRecord;
use crate::property::{GenericProperties, GenericPropertiesLoader};
use crate::table::{
    absent_key_is_unmapped, is_absent, is_last_of, keys_stand_in_pairs, last_pair_wins,
    pushed_pair_is_inserted, replaced_pair_is_inserted, table,
};
use crate::text::same_text;

verus! {

/// The default properties of one kind of object.
#[derive(Debug, Clone)]
pub struct PropertyTemplate {
    pub properties: GenericProperties,
}

/// Properties, as a mathematical value: a map from names to records.
pub type Properties = Map<Seq<char>, PropertyRecord>;

/// Templates, as a mathematical value: a map from the name of an object type
/// and the name of a template to default properties.
pub type Templates = Map<(Seq<char>, Seq<char>), Properties>;

impl View for PropertyTemplate {
    type V = Properties;

    open spec fn view(&self) -> Properties {
        self.properties@
    }
}

#[derive(Debug)]
pub struct PropertyTemplateLoader {
    properties: Option<GenericProperties>,
}

impl PropertyTemplateLoader {
    pub fn new() -> (r: Self)
        ensures
            r.state() == None::<Properties>,
    {
        PropertyTemplateLoader { properties: None }
    }
}

/// The properties, or none at all where they are missing.
pub open spec fn or_empty(properties: Option<Properties>) -> Properties {
    match properties {
        Some(p) => p,
        None => Map::empty(),
    }
}

impl NodeLoaderCommon for PropertyTemplateLoader {
    type Target = PropertyTemplate;

    type State = Option<Properties>;

    type Outcome = Properties;

    closed spec fn state(&self) -> Option<Properties> {
        crate::property::properties_view(self.properties)
    }

    open spec fn outcome(target: &PropertyTemplate) -> Properties {
        target@
    }

    open spec fn finish(state: Option<Properties>) -> Option<Properties> {
        Some(or_empty(state))
    }

    open spec fn always_loads() -> bool {
        true
    }

    open spec fn refuses_with(e: Error) -> bool {
        false
    }

    fn on_finish(self) -> (r: Result<PropertyTemplate>) {
        Ok(
            PropertyTemplate {
                properties: match self.properties {
                    Some(p) => p,
                    None => GenericProperties::new(),
                },
            },
        )
    }
}

impl NodeLoader for PropertyTemplateLoader {
    /// A child `Properties70` is loaded as the properties; any other child is skipped.
    open spec fn child(state: Option<Properties>, events: Seq<FbxEvent>, pos: int) -> Option<
        (Option<Properties>, int),
    > {
        if name_at(events, pos) == "Properties70"@ {
            match children::<GenericPropertiesLoader>(Map::empty(), events, pos) {
                Some((loaded, end)) => Some((Some(loaded), end)),
                None => None,
            }
        } else {
            skipped(state, events, pos)
        }
    }

    proof fn child_ends_with_its_node(state: Self::State, events: Seq<FbxEvent>, pos: int) {
        loader_ends_with_its_node::<GenericPropertiesLoader>(Map::empty(), events, pos);
    }

    fn on_child_node(&mut self, reader: &mut EventReader<'_>, node_info: RawNodeInfo<'_>) -> (r:
        Result<()>) {
        let RawNodeInfo { name, .. } = node_info;
        if same_text(name, "Properties70") {
            match GenericPropertiesLoader::new(70).load(reader) {
                Ok(loaded) => {
                    self.properties = Some(loaded);
                    Ok(())
                },
                Err(e) => Err(e),
            }
        } else {
            ignore_current_node(reader)
        }
    }
}

/// Corresponds to `/Definitions/ObjectType` node.
#[derive(Debug, Clone)]
pub struct PropertyTemplates {
    templates: Vec<((String, String), PropertyTemplate)>,
}

impl View for PropertyTemplates {
    type V = Templates;

    closed spec fn view(&self) -> Templates {
        table(self.pairs())
    }
}

impl PropertyTemplates {
    spec fn pairs(&self) -> Seq<((Seq<char>, Seq<char>), Properties)> {
        self.templates@.map_values(
            |e: ((String, String), PropertyTemplate)| ((e.0.0@, e.0.1@), e.1@),
        )
    }

    /// No pair of names occurs twice among the templates that are held.
    /// `new` makes such templates and `insert` keeps them so.
    pub closed spec fn wf(&self) -> bool {
        forall|i: int, j: int|
            0 <= i < j < self.templates@.len() ==> !((#[trigger] self.templates@[i]).0.0@ == (
            #[trigger] self.templates@[j]).0.0@ && self.templates@[i].0.1@ == self.templates@[j].0.1@)
    }

    pub fn new() -> (r: Self)
        ensures
            r@ == Map::<(Seq<char>, Seq<char>), Properties>::empty(),
            r.wf(),
    {
        PropertyTemplates { templates: Vec::new() }
    }

    /// Where the template of a key stands.
    fn position(&self, object_type: &str, name: &str) -> (r: Option<usize>)
        ensures
            match r {
                Some(at) => is_last_of(self.pairs(), (object_type@, name@), at as int),
                None => is_absent(self.pairs(), (object_type@, name@)),
            },
    {
        let mut i: usize = self.templates.len();
        while i > 0
            invariant
                i <= self.templates.len(),
                forall|j: int|
                    i <= j < self.pairs().len() ==> (#[trigger] self.pairs()[j]).0 != (
                        object_type@,
                        name@,
                    ),
            decreases i,
        {
            i = i - 1;
            let key = &self.templates[i].0;
            if same_text(key.0.as_str(), object_type) && same_text(key.1.as_str(), name) {
                return Some(i);
            }
        }
        None
    }

    /// Puts a template under the name of an object type and its own name. A
    /// template that was there is replaced.
    pub fn insert(&mut self, key: (String, String), template: PropertyTemplate)
        ensures
            final(self)@ == old(self)@.insert((key.0@, key.1@), template@),
            old(self).wf() ==> final(self).wf(),
    {
        match self.position(key.0.as_str(), key.1.as_str()) {
            Some(at) => {
                proof {
                    assert(self.pairs()[at as int].0 == (key.0@, key.1@));
                    replaced_pair_is_inserted(
                        self.pairs(),
                        (key.0@, key.1@),
                        at as int,
                        template@,
                    );
                }
                let ghost before = self.pairs();
                let ghost k = (key.0@, key.1@);
                let ghost t = template@;
                self.templates[at] = (key, template);
                proof {
                    assert(self.pairs() =~= before.update(at as int, (k, t)));
                }
            },
            None => {
                proof {
                    pushed_pair_is_inserted(self.pairs(), (key.0@, key.1@), template@);
                    assert forall|i: int| 0 <= i < self.templates@.len() implies !((
                    #[trigger] self.templates@[i]).0.0@ == key.0@ && self.templates@[i].0.1@
                        == key.1@) by {
                        assert(self.pairs()[i].0 != (key.0@, key.1@));
                    }
                }
                let ghost before = self.pairs();
                let ghost k = (key.0@, key.1@);
                let ghost t = template@;
                self.templates.push((key, template));
                proof {
                    assert(self.pairs() =~= before.push((k, t)));
                }
            },
        }
    }

    /// The names that templates are held under, the name of the object type
    /// first, each pair once, in the order in which they first came.
    pub fn keys(&self) -> (r: Vec<(&str, &str)>)
        ensures
            forall|object_type: Seq<char>, name: Seq<char>|
                self@.contains_key((object_type, name)) <==> exists|i: int|
                    0 <= i < r@.len() && key_view(#[trigger] r@[i]) == (object_type, name),
            self.wf() ==> forall|i: int, j: int|
                0 <= i < j < r@.len() ==> key_view(#[trigger] r@[i]) != key_view(#[trigger] r@[j]),
    {
        let mut out: Vec<(&str, &str)> = Vec::with_capacity(self.templates.len());
        let mut i: usize = 0;
        while i < self.templates.len()
            invariant
                i <= self.templates.len(),
                out@.len() == i,
                forall|j: int| 0 <= j < i ==> key_view(#[trigger] out@[j]) == self.pairs()[j].0,
            decreases self.templates.len() - i,
        {
            let key = &self.templates[i].0;
            out.push((key.0.as_str(), key.1.as_str()));
            i = i + 1;
        }
        proof {
            assert forall|object_type: Seq<char>, name: Seq<char>|
                self@.contains_key((object_type, name)) <==> exists|i: int|
                    0 <= i < out@.len() && key_view(#[trigger] out@[i]) == (object_type, name) by {
                let key = (object_type, name);
                keys_stand_in_pairs(self.pairs(), key);
                if self@.contains_key(key) {
                    let i = choose|i: int|
                        0 <= i < self.pairs().len() && (#[trigger] self.pairs()[i]).0 == key;
                    assert(key_view(out@[i]) == key);
                }
                if exists|i: int| 0 <= i < out@.len() && key_view(#[trigger] out@[i]) == key {
                    let i = choose|i: int| 0 <= i < out@.len() && key_view(#[trigger] out@[i]) == key;
                    assert(self.pairs()[i].0 == key);
                }
            }
            assert(self.wf() ==> forall|i: int, j: int|
                0 <= i < j < out@.len() ==> key_view(#[trigger] out@[i]) != key_view(
                    #[trigger] out@[j],
                )) by {
                if self.wf() {
                    assert forall|i: int, j: int| 0 <= i < j < out@.len() implies key_view(
                        #[trigger] out@[i],
                    ) != key_view(#[trigger] out@[j]) by {
                        assert(key_view(out@[i]) == self.pairs()[i].0);
                        assert(key_view(out@[j]) == self.pairs()[j].0);
                        assert(self.templates@[i].0.0@ == self.pairs()[i].0.0);
                        assert(self.templates@[j].0.0@ == self.pairs()[j].0.0);
                    }
                }
            }
        }
        out
    }

    /// The template under the name of an object type and its own name.
    pub fn get(&self, object_type: &str, name: &str) -> (r: Option<&PropertyTemplate>)
        ensures
            r is Some == self@.contains_key((object_type@, name@)),
            r matches Some(t) ==> self@[(object_type@, name@)] == t@,
    {
        match self.position(object_type, name) {
            Some(at) => {
                proof {
                    last_pair_wins(self.pairs(), (object_type@, name@), at as int);
                }
                Some(&self.templates[at].1)
            },
            None => {
                proof {
                    absent_key_is_unmapped(self.pairs(), (object_type@, name@));
                }
                None
            },
        }
    }

    /// The default properties under the name of an object type and of a template.
    pub fn defaults(&self, object_type: &str, name: &str) -> (r: Option<&GenericProperties>)
        ensures
            crate::property::defaults_view(r) == defaults_in(self@, object_type@, name@),
    {
        match self.get(object_type, name) {
            Some(t) => Some(&t.properties),
            None => None,
        }
    }
}

/// The pair of texts that a pair of borrowed strings holds.
pub open spec fn key_view(key: (&str, &str)) -> (Seq<char>, Seq<char>) {
    (key.0@, key.1@)
}

impl Default for PropertyTemplates {
    /// No templates.
    fn default() -> (r: Self)
        ensures
            r@ == Map::<(Seq<char>, Seq<char>), Properties>::empty(),
            r.wf(),
    {
        PropertyTemplates::new()
    }
}

/// The default properties that templates hold under a key, if any.
pub open spec fn defaults_in(templates: Templates, object_type: Seq<char>, name: Seq<char>) -> Option<
    Properties,
> {
    if templates.contains_key((object_type, name)) {
        Some(templates[(object_type, name)])
    } else {
        None
    }
}

#[derive(Debug)]
pub struct PropertyTemplatesLoader<'a> {
    templates: PropertyTemplates,
    object_type: &'a str,
}

/// What a loader of templates holds, as a mathematical value.
pub ghost struct TemplatesState {
    pub templates: Templates,
    pub object_type: Seq<char>,
}

impl<'a> PropertyTemplatesLoader<'a> {
    /// A loader that adds the templates of one object type to `templates`.
    pub fn new(templates: PropertyTemplates, object_type: &'a str) -> (r: Self)
        ensures
            r.state() == (TemplatesState { templates: templates@, object_type: object_type@ }),
    {
        PropertyTemplatesLoader { templates: templates, object_type: object_type }
    }
}

impl<'a> NodeLoaderCommon for PropertyTemplatesLoader<'a> {
    type Target = PropertyTemplates;

    type State = TemplatesState;

    type Outcome = Templates;

    closed spec fn state(&self) -> TemplatesState {
        TemplatesState { templates: self.templates@, object_type: self.object_type@ }
    }

    open spec fn outcome(target: &PropertyTemplates) -> Templates {
        target@
    }

    open spec fn finish(state: TemplatesState) -> Option<Templates> {
        Some(state.templates)
    }

    open spec fn always_loads() -> bool {
        true
    }

    open spec fn refuses_with(e: Error) -> bool {
        false
    }

    fn on_finish(self) -> (r: Result<PropertyTemplates>) {
        Ok(self.templates)
    }
}

impl<'a> NodeLoader for PropertyTemplatesLoader<'a> {
    /// A child `PropertyTemplate` whose first cell is text, its name, is
    /// loaded as a template and put under the object type and that name. Any
    /// other child is skipped.
    open spec fn child(state: TemplatesState, events: Seq<FbxEvent>, pos: int) -> Option<
        (TemplatesState, int),
    > {
        if name_at(events, pos) == "PropertyTemplate"@ && first_text(cells_at(events, pos)) is Some {
            match children::<PropertyTemplateLoader>(None, events, pos) {
                Some((loaded, end)) => Some(
                    (
                        TemplatesState {
                            templates: state.templates.insert(
                                (state.object_type, first_text(cells_at(events, pos))->0),
                                or_empty(loaded),
                            ),
                            ..state
                        },
                        end,
                    ),
                ),
                None => None,
            }
        } else {
            skipped(state, events, pos)
        }
    }

    proof fn child_ends_with_its_node(state: Self::State, events: Seq<FbxEvent>, pos: int) {
        loader_ends_with_its_node::<PropertyTemplateLoader>(None, events, pos);
    }

    fn on_child_node(&mut self, reader: &mut EventReader<'_>, node_info: RawNodeInfo<'_>) -> (r:
        Result<()>) {
        let RawNodeInfo { name, properties } = node_info;
        if same_text(name, "PropertyTemplate") {
            match first_string(properties) {
                Some(template_name) => match PropertyTemplateLoader::new().load(reader) {
                    Ok(template) => {
                        self.templates.insert(
                            (self.object_type.to_owned(), template_name.to_owned()),
                            template,
                        );
                        Ok(())
                    },
                    Err(e) => Err(e),
                },
                None => ignore_current_node(reader),
            }
        } else {
            ignore_current_node(reader)
        }
    }
}

} // verus!
