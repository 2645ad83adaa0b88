//! Editing the open component: properties, interactions, definitions and tree edits, and how
//! people are told of them.
use vstd::prelude::*;

use crate::components::{
    ComponentEvent, ComponentLibrary, ComponentLogic, DesignToken, NativeComponent, NativeNodeKind,
};
use crate::definitions;
use crate::definitions::{DefinitionChange, DefinitionDrafts};
use crate::identifiers;
use crate::identifiers::ComponentProp;
use crate::keyed;
use crate::keyed::Keyed;
use crate::panels;
use crate::studio::{Authoring, InspectorDrafts, InspectorTab, Panels, PendingEdits};
use crate::text;

verus! {

/// The text fields of the property editor.
#[derive(Clone, Copy, Debug, PartialEq, Eq, Structural)]
pub enum StudioInspectorDraftField {
    Name,
    Type,
    Default,
}

impl InspectorDrafts {
    /// What is typed into one field of the property editor.
    pub open spec fn prop_draft(&self, field: StudioInspectorDraftField) -> Seq<char> {
        match field {
            StudioInspectorDraftField::Name => self.prop_name@,
            StudioInspectorDraftField::Type => self.prop_type@,
            StudioInspectorDraftField::Default => self.prop_default@,
        }
    }

    /// What is typed into one field of the property editor.
    pub fn inspector_draft(&self, field: StudioInspectorDraftField) -> (out: String)
        ensures
            out@ == self.prop_draft(field),
    {
        match field {
            StudioInspectorDraftField::Name => self.prop_name.clone(),
            StudioInspectorDraftField::Type => self.prop_type.clone(),
            StudioInspectorDraftField::Default => self.prop_default.clone(),
        }
    }

    /// Types into one field of the property editor.
    pub fn set_inspector_draft(&mut self, field: StudioInspectorDraftField, value: String)
        ensures
            *final(self) == (match field {
                StudioInspectorDraftField::Name => InspectorDrafts {
                    prop_name: value,
                    ..*old(self)
                },
                StudioInspectorDraftField::Type => InspectorDrafts {
                    prop_type: value,
                    ..*old(self)
                },
                StudioInspectorDraftField::Default => InspectorDrafts {
                    prop_default: value,
                    ..*old(self)
                },
            }),
    {
        match field {
            StudioInspectorDraftField::Name => {
                self.prop_name = value;
            },
            StudioInspectorDraftField::Type => {
                self.prop_type = value;
            },
            StudioInspectorDraftField::Default => {
                self.prop_default = value;
            },
        }
    }

    /// Switches whether a slot takes several children.
    pub fn toggle_slot_multiple(&mut self)
        ensures
            *final(self) == (InspectorDrafts {
                slot_multiple: !old(self).slot_multiple,
                ..*old(self)
            }),
    {
        self.slot_multiple = !self.slot_multiple;
    }

    /// How many children a slot takes.
    pub open spec fn slot_capacity_label_text(&self) -> Seq<char> {
        (if self.slot_multiple {
                "Multiple children"@
            } else {
                "Single child"@
            })
    }

    /// How many children a slot takes.
    pub fn slot_capacity_label(&self) -> (out: String)
        ensures
            out@ == self.slot_capacity_label_text(),
    {
        if self.slot_multiple {
            "Multiple children".to_owned()
        } else {
            "Single child".to_owned()
        }
    }

    /// Why the property that the drafts describe is refused.
    pub open spec fn property_fault(&self) -> Option<Seq<char>> {
        if !identifiers::portable_identifier(text::trimmed(self.prop_name@)) {
            Some("Property name must use a portable identifier"@)
        } else if !identifiers::portable_types().contains(text::trimmed(self.prop_type@)) {
            Some("Property type must be a portable Rust/HTML scalar type"@)
        } else if text::byte_len(text::trimmed(self.prop_default@)) > 16384 {
            Some("Property default exceeds the 16 KiB component bound"@)
        } else {
            None
        }
    }
}

/// What changing the open component's definition asks to be saved: the same library but for
/// the one component, which is a copy with the change made.
pub open spec fn definition_changed(
    authoring: Authoring,
    change: DefinitionChange,
    out: Result<ComponentLibrary, &'static str>,
) -> bool {
    let before = authoring.library;
    if authoring.active_component() is None {
        out is Err && out->Err_0@ == "Open a component document to edit its definition"@
    } else {
        match authoring.edited_position() {
            None => out is Err && out->Err_0@ == "The active component no longer exists"@,
            Some(i) => {
                &&& out is Ok
                &&& out->Ok_0.active_component == before.active_component
                &&& out->Ok_0.tokens@ == before.tokens@
                &&& out->Ok_0.components@.len() == before.components@.len()
                &&& forall|j: int|
                    0 <= j < before.components@.len() && j != i ==> (
                    #[trigger] out->Ok_0.components@[j]).same(before.components@[j])
                &&& exists|base: NativeComponent|
                    base.same(before.components@[i]) && #[trigger] definitions::changed_component(
                        base,
                        out->Ok_0.components@[i],
                        change,
                    )
            },
        }
    }
}

/// Whether two libraries differ in their tokens at most.
pub open spec fn tokens_changed(before: ComponentLibrary, after: ComponentLibrary) -> bool {
    &&& after.active_component == before.active_component
    &&& after.components@.len() == before.components@.len()
    &&& forall|j: int|
        0 <= j < before.components@.len() ==> (#[trigger] after.components@[j]).same(
            before.components@[j],
        )
}

/// What adding or replacing the drafted property does to the session.
pub open spec fn property_added(
    before: Authoring,
    after: Authoring,
    drafts: InspectorDrafts,
    status: Seq<char>,
) -> bool {
    match drafts.property_fault() {
        Some(fault) => status == fault && after == before,
        None => match before.edited_position() {
            None => status == before.edit_refusal() && after == before,
            Some(i) => {
                let old_part = before.library.components@[i];
                let new_part = after.library.components@[i];
                let name = text::trimmed(drafts.prop_name@);
                let default = text::trimmed(drafts.prop_default@);
                &&& after.edited_at(before, i)
                &&& new_part == (NativeComponent { props: new_part.props, ..old_part })
                &&& match keyed::first_key(old_part.props@, name, 0) {
                    Some(k) => {
                        &&& status == "Property contract updated · live graph updated"@
                        &&& new_part.props@ == old_part.props@.update(k, new_part.props@[k])
                        &&& property_is(
                            new_part.props@[k],
                            name,
                            text::trimmed(drafts.prop_type@),
                            default,
                        )
                    },
                    None => {
                        &&& status == "Property added · live graph updated"@
                        &&& new_part.props@ == old_part.props@.push(new_part.props@.last())
                        &&& property_is(
                            new_part.props@.last(),
                            name,
                            text::trimmed(drafts.prop_type@),
                            default,
                        )
                    },
                }
            },
        },
    }
}

/// What removing the drafted property does to the session.
pub open spec fn property_removed(
    before: Authoring,
    after: Authoring,
    drafts: InspectorDrafts,
    status: Seq<char>,
) -> bool {
    let name = text::trimmed(drafts.prop_name@);
    if name.len() == 0 {
        status == "Enter the property name to remove"@ && after == before
    } else {
        match before.edited_position() {
            None => status == before.edit_refusal() && after == before,
            Some(i) => {
                let old_part = before.library.components@[i];
                let new_part = after.library.components@[i];
                if keyed::first_key(old_part.props@, name, 0) is None {
                    &&& status == "No property with that name exists"@
                    &&& after == before
                } else {
                    &&& status == "Property removed · live graph updated"@
                    &&& after.edited_at(before, i)
                    &&& new_part == (NativeComponent { props: new_part.props, ..old_part })
                    &&& new_part.props@ == keyed::without(old_part.props@, name)
                }
            },
        }
    }
}

/// What adding a click interaction to the root does to the session.
pub open spec fn logic_added(
    before: Authoring,
    after: Authoring,
    status: Seq<char>,
) -> bool {
    match keyed::first_key(
        before.library.components@,
        before.library.active_component@,
        0,
    ) {
        None => {
            &&& status == "No component is available for an interaction"@
            &&& after == before
        },
        Some(i) => {
            let old_part = before.library.components@[i];
            let new_part = after.library.components@[i];
            if keyed::first_key(old_part.logic@, "root-click"@, 0) is Some {
                &&& status == "Root click interaction already exists"@
                &&& after == before
            } else {
                &&& status
                    == "Added root click → component_action · live graph updated"@
                &&& after.edited_at(before, i)
                &&& new_part == (NativeComponent { logic: new_part.logic, ..old_part })
                &&& new_part.logic@ == old_part.logic@.push(new_part.logic@.last())
                &&& is_root_click(new_part.logic@.last())
            }
        },
    }
}

impl Authoring {
    /// The position in the library of the component that is edited.
    pub open spec fn edited_position(&self) -> Option<int> {
        match self.active_component() {
            Some(id) => keyed::first_key(self.library.components@, id, 0),
            None => None,
        }
    }

    /// Why no component can be edited: no document is open, or its component is gone.
    pub open spec fn edit_refusal(&self) -> Seq<char> {
        if self.active_component() is None {
            "Open a component document to edit its property contract"@
        } else {
            "The active component no longer exists"@
        }
    }

    /// Whether only one component changed, and a change waits to be saved.
    pub open spec fn edited_at(&self, before: Authoring, i: int) -> bool {
        &&& *self == (Authoring {
            library: self.library,
            pending: PendingEdits::fresh(),
            ..before
        })
        &&& self.library == (ComponentLibrary {
            components: self.library.components,
            ..before.library
        })
        &&& self.library.components@ == before.library.components@.update(
            i,
            self.library.components@[i],
        )
    }

    fn find_edited(&self) -> (out: Result<usize, &'static str>)
        ensures
            match self.edited_position() {
                Some(i) => out == Ok::<usize, &'static str>(i as usize) && 0 <= i
                    < self.library.components.len(),
                None => out is Err && out->Err_0@ == self.edit_refusal(),
            },
    {
        match self.active_component_id() {
            None => Err("Open a component document to edit its property contract"),
            Some(id) => match keyed::find(&self.library.components, id.as_str()) {
                Some(i) => Ok(i),
                None => Err("The active component no longer exists"),
            },
        }
    }

    /// Adds the property that the drafts describe to the edited component, or replaces the
    /// one of its name, and shows the logic page.
    pub fn add_property(&mut self, drafts: &InspectorDrafts, panels: &mut Panels) -> (status: String)
        ensures
            *final(panels) == (Panels { inspector_tab: InspectorTab::Logic, ..*old(panels) }),
            property_added(*old(self), *final(self), *drafts, status@),
    {
        panels.inspector_tab = InspectorTab::Logic;
        let name = text::trim(drafts.prop_name.as_str());
        let value_type = text::trim(drafts.prop_type.as_str());
        let default = text::trim(drafts.prop_default.as_str());
        proof {
            text::law_trim_idempotent(drafts.prop_type@);
        }
        if !identifiers::is_portable_identifier(name) {
            return "Property name must use a portable identifier".to_owned();
        }
        if !identifiers::is_portable_type(value_type) {
            return "Property type must be a portable Rust/HTML scalar type".to_owned();
        }
        if text::bytes_in(default) > 16384 {
            return "Property default exceeds the 16 KiB component bound".to_owned();
        }
        let i: usize = match self.find_edited() {
            Ok(i) => i,
            Err(refusal) => return refusal.to_owned(),
        };
        let property = ComponentProp {
            name: name.to_owned(),
            value_type: value_type.to_owned(),
            default: if default.unicode_len() == 0 {
                None
            } else {
                Some(default.to_owned())
            },
        };
        let mut component = self.library.components.remove(i);
        proof {
            keyed::lemma_first_key(component.props@, name@, 0);
        }
        let updated = keyed::place(&mut component.props, property);
        self.library.components.insert(i, component);
        self.pending = PendingEdits { dirty: true, quiet_ticks: 0 };
        proof {
            assert(self.library.components@ =~= old(self).library.components@.update(
                i as int,
                component,
            ));
        }
        if updated {
            "Property contract updated · live graph updated".to_owned()
        } else {
            "Property added · live graph updated".to_owned()
        }
    }

    /// Removes the property that the drafts name from the edited component, and shows the
    /// logic page.
    pub fn remove_property(&mut self, drafts: &InspectorDrafts, panels: &mut Panels) -> (status:
        String)
        ensures
            *final(panels) == (Panels { inspector_tab: InspectorTab::Logic, ..*old(panels) }),
            property_removed(*old(self), *final(self), *drafts, status@),
    {
        panels.inspector_tab = InspectorTab::Logic;
        let name = text::trim(drafts.prop_name.as_str());
        if name.unicode_len() == 0 {
            return "Enter the property name to remove".to_owned();
        }
        let i: usize = match self.find_edited() {
            Ok(i) => i,
            Err(refusal) => return refusal.to_owned(),
        };
        if keyed::find(&self.library.components[i].props, name).is_none() {
            return "No property with that name exists".to_owned();
        }
        let mut component = self.library.components.remove(i);
        keyed::remove_all(&mut component.props, name);
        self.library.components.insert(i, component);
        self.pending = PendingEdits { dirty: true, quiet_ticks: 0 };
        proof {
            assert(self.library.components@ =~= old(self).library.components@.update(
                i as int,
                component,
            ));
        }
        "Property removed · live graph updated".to_owned()
    }

    /// Adds an interaction for clicks on the root of the library's active component, once,
    /// and shows the logic page.
    pub fn add_logic(&mut self, panels: &mut Panels) -> (status: String)
        ensures
            *final(panels) == (Panels { inspector_tab: InspectorTab::Logic, ..*old(panels) }),
            logic_added(*old(self), *final(self), status@),
    {
        panels.inspector_tab = InspectorTab::Logic;
        let i: usize = match keyed::find(
            &self.library.components,
            self.library.active_component.as_str(),
        ) {
            Some(i) => i,
            None => return "No component is available for an interaction".to_owned(),
        };
        if keyed::find(&self.library.components[i].logic, "root-click").is_some() {
            return "Root click interaction already exists".to_owned();
        }
        let mut component = self.library.components.remove(i);
        component.logic.push(
            ComponentLogic {
                id: "root-click".to_owned(),
                source_node: "root".to_owned(),
                event: ComponentEvent::Click,
                action: "component_action".to_owned(),
                guard: None,
                target_state: None,
                value: None,
            },
        );
        self.library.components.insert(i, component);
        self.pending = PendingEdits { dirty: true, quiet_ticks: 0 };
        proof {
            assert(self.library.components@ =~= old(self).library.components@.update(
                i as int,
                component,
            ));
        }
        "Added root click → component_action · live graph updated".to_owned()
    }

    /// The library with the open component's definition changed, to be saved; a component
    /// document has to be open, and its component has to exist.
    pub fn mutate_component_definition(&self, change: DefinitionChange) -> (out: Result<
        ComponentLibrary,
        &'static str,
    >)
        ensures
            definition_changed(*self, change, out),
    {
        if self.active_component_id().is_none() {
            return Err("Open a component document to edit its definition");
        }
        match self.find_edited() {
            Err(_) => Err("The active component no longer exists"),
            Ok(i) => {
                let mut candidate = self.library.copied();
                let mut component = self.library.components[i].copied();
                let ghost base = component;
                definitions::apply_definition_change(&mut component, change);
                candidate.components.set(i, component);
                proof {
                    assert(definitions::changed_component(
                        base,
                        candidate.components@[i as int],
                        change,
                    ));
                }
                Ok(candidate)
            },
        }
    }

    /// The library with a token put in place, to be saved.
    pub fn token_candidate(&self, token: DesignToken) -> (candidate: ComponentLibrary)
        ensures
            tokens_changed(self.library, candidate),
            candidate.tokens@ == keyed::placed(self.library.tokens@, token),
    {
        let mut candidate = self.library.copied();
        definitions::put_design_token(&mut candidate, token);
        candidate
    }

    /// The library without the drafted token, to be saved.
    pub fn candidate_without_token(&self, drafts: &DefinitionDrafts) -> (candidate:
        ComponentLibrary)
        ensures
            tokens_changed(self.library, candidate),
            candidate.tokens@ == keyed::without(
                self.library.tokens@,
                text::trimmed(drafts.token_path@),
            ),
    {
        let mut candidate = self.library.copied();
        definitions::remove_design_token(&mut candidate, drafts);
        candidate
    }

    /// Takes over a library whose changed definition was saved; a failed save changes nothing.
    pub fn finish_definition_change(
        &mut self,
        candidate: ComponentLibrary,
        description: &str,
        saved: Result<(), String>,
    ) -> (status: String)
        ensures
            *final(self) == (if saved is Ok {
                Authoring { library: candidate, ..*old(self) }
            } else {
                *old(self)
            }),
            status@ == panels::outcome_status(
                saved,
                Seq::<char>::empty(),
                description@ + " · component definition saved"@,
            ),
    {
        match saved {
            Ok(()) => {
                self.library = candidate;
                text::join2(description, " · component definition saved")
            },
            Err(error) => {
                proof {
                    assert(Seq::<char>::empty() + error@ =~= error@);
                }
                error
            },
        }
    }

    /// Takes over a library whose tokens were saved; a failed save changes nothing.
    pub fn finish_token_change(
        &mut self,
        candidate: ComponentLibrary,
        removed: bool,
        saved: Result<(), String>,
    ) -> (status: String)
        ensures
            *final(self) == (if saved is Ok {
                Authoring { library: candidate, ..*old(self) }
            } else {
                *old(self)
            }),
            status@ == panels::outcome_status(
                saved,
                if removed {
                    "Remove design token rejected: "@
                } else {
                    "Design token rejected: "@
                },
                if removed {
                    "Design token removed"@
                } else {
                    "Design token updated · available to every projection"@
                },
            ),
    {
        match saved {
            Ok(()) => {
                self.library = candidate;
                if removed {
                    "Design token removed".to_owned()
                } else {
                    "Design token updated · available to every projection".to_owned()
                }
            },
            Err(error) => if removed {
                text::join2("Remove design token rejected: ", error.as_str())
            } else {
                text::join2("Design token rejected: ", error.as_str())
            },
        }
    }
}

/// What a property holds; an empty default is no default.
pub open spec fn property_is(
    property: ComponentProp,
    name: Seq<char>,
    value_type: Seq<char>,
    default: Seq<char>,
) -> bool {
    &&& property.name@ == name
    &&& property.value_type@ == value_type
    &&& text::text_view(property.default) == (if default.len() == 0 {
        None
    } else {
        Some(default)
    })
}

/// The interaction for clicks on the root.
pub open spec fn is_root_click(logic: ComponentLogic) -> bool {
    &&& logic.id@ == "root-click"@
    &&& logic.source_node@ == "root"@
    &&& logic.event == ComponentEvent::Click
    &&& logic.action@ == "component_action"@
    &&& logic.guard is None
    &&& logic.target_state is None
    &&& logic.value is None
}

// ---------------------------------------------------------------------------
// Tree edits
// ---------------------------------------------------------------------------

/// The prefix of the IDs that inserted nodes of this kind get.
pub open spec fn kind_prefix(kind: NativeNodeKind) -> Seq<char> {
    match kind {
        NativeNodeKind::Row => "row"@,
        NativeNodeKind::Column => "column"@,
        NativeNodeKind::Grid => "grid"@,
        NativeNodeKind::Stack => "stack"@,
        NativeNodeKind::Text => "text"@,
        NativeNodeKind::Button => "button"@,
        NativeNodeKind::Titlebar => "titlebar"@,
        NativeNodeKind::Instance => "instance"@,
    }
}

/// What people call nodes of this kind.
pub open spec fn kind_label(kind: NativeNodeKind) -> Seq<char> {
    match kind {
        NativeNodeKind::Row => "Row"@,
        NativeNodeKind::Column => "Column"@,
        NativeNodeKind::Grid => "Grid"@,
        NativeNodeKind::Stack => "Stack"@,
        NativeNodeKind::Text => "Text"@,
        NativeNodeKind::Button => "Button"@,
        NativeNodeKind::Titlebar => "Titlebar"@,
        NativeNodeKind::Instance => "Instance"@,
    }
}

/// The ID prefix and the label of a kind of node.
pub fn primitive_node(kind: NativeNodeKind) -> (out: (&'static str, &'static str))
    ensures
        out.0@ == kind_prefix(kind),
        out.1@ == kind_label(kind),
{
    match kind {
        NativeNodeKind::Row => ("row", "Row"),
        NativeNodeKind::Column => ("column", "Column"),
        NativeNodeKind::Grid => ("grid", "Grid"),
        NativeNodeKind::Stack => ("stack", "Stack"),
        NativeNodeKind::Text => ("text", "Text"),
        NativeNodeKind::Button => ("button", "Button"),
        NativeNodeKind::Titlebar => ("titlebar", "Titlebar"),
        NativeNodeKind::Instance => ("instance", "Instance"),
    }
}

// ---------------------------------------------------------------------------
// What the edits leave behind
// ---------------------------------------------------------------------------

/// A property is refused for its name first, for its type next and for its default last, and a
/// refused one changes nothing.
pub proof fn law_refused_properties_change_nothing(
    before: Authoring,
    after: Authoring,
    drafts: InspectorDrafts,
    status: Seq<char>,
)
    requires
        property_added(before, after, drafts, status),
    ensures
        ({
            let named = identifiers::portable_identifier(text::trimmed(drafts.prop_name@));
            let typed = identifiers::portable_types().contains(text::trimmed(drafts.prop_type@));
            let short = text::byte_len(text::trimmed(drafts.prop_default@)) <= 16384;
            &&& !named || !typed || !short ==> after == before
            &&& !named ==> status == "Property name must use a portable identifier"@
            &&& named && !typed ==> status
                == "Property type must be a portable Rust/HTML scalar type"@
            &&& named && typed && !short ==> status
                == "Property default exceeds the 16 KiB component bound"@
        }),
{
}

/// An accepted property takes the place of the first one with its name, or stands behind the
/// others where there is none; its default is unset where none is typed. Everything else of the
/// component, every other component and the selection stay, and the change waits to be saved.
pub proof fn law_added_property_joins_the_others(
    before: Authoring,
    after: Authoring,
    drafts: InspectorDrafts,
    status: Seq<char>,
    i: int,
    k: int,
)
    requires
        property_added(before, after, drafts, status),
        identifiers::portable_identifier(text::trimmed(drafts.prop_name@)),
        identifiers::portable_types().contains(text::trimmed(drafts.prop_type@)),
        text::byte_len(text::trimmed(drafts.prop_default@)) <= 16384,
        0 <= i < before.library.components@.len(),
        before.active_component() == Some(before.library.components@[i].id@),
        forall|j: int|
            0 <= j < i ==> #[trigger] before.library.components@[j].id@
                != before.library.components@[i].id@,
        0 <= k <= before.library.components@[i].props@.len(),
        k < before.library.components@[i].props@.len()
            ==> before.library.components@[i].props@[k].name@ == text::trimmed(drafts.prop_name@),
        forall|j: int|
            0 <= j < k ==> #[trigger] before.library.components@[i].props@[j].name@
                != text::trimmed(drafts.prop_name@),
    ensures
        ({
            let old_part = before.library.components@[i];
            let new_part = after.library.components@[i];
            let fresh = k == old_part.props@.len();
            let default = text::trimmed(drafts.prop_default@);
            &&& new_part.props@.len() == old_part.props@.len() + (if fresh {
                1int
            } else {
                0
            })
            &&& forall|j: int|
                0 <= j < old_part.props@.len() && j != k ==> #[trigger] new_part.props@[j]
                    == old_part.props@[j]
            &&& new_part.props@[k].name@ == text::trimmed(drafts.prop_name@)
            &&& new_part.props@[k].value_type@ == text::trimmed(drafts.prop_type@)
            &&& default.len() == 0 ==> new_part.props@[k].default is None
            &&& default.len() > 0 ==> new_part.props@[k].default is Some
                && new_part.props@[k].default->0@ == default
            &&& new_part.id == old_part.id && new_part.name == old_part.name && new_part.root
                == old_part.root && new_part.states == old_part.states && new_part.variants
                == old_part.variants && new_part.slots == old_part.slots && new_part.logic
                == old_part.logic
            &&& after.library.components@.len() == before.library.components@.len()
            &&& forall|j: int|
                0 <= j < before.library.components@.len() && j != i
                    ==> #[trigger] after.library.components@[j] == before.library.components@[j]
            &&& after.library.active_component == before.library.active_component
            &&& after.selection == before.selection
            &&& after.active_document == before.active_document
            &&& after.pending.dirty && after.pending.quiet_ticks == 0
            &&& fresh ==> status == "Property added · live graph updated"@
            &&& !fresh ==> status == "Property contract updated · live graph updated"@
        }),
{
    keyed::lemma_first_key(before.library.components@, before.library.components@[i].id@, 0);
    keyed::lemma_first_key(
        before.library.components@[i].props@,
        text::trimmed(drafts.prop_name@),
        0,
    );
}

/// Removing a property leaves every other one in its order, and an unknown name or none at all
/// changes nothing.
pub proof fn law_removed_property_leaves_the_others(
    before: Authoring,
    after: Authoring,
    drafts: InspectorDrafts,
    status: Seq<char>,
    i: int,
)
    requires
        property_removed(before, after, drafts, status),
        0 <= i < before.library.components@.len(),
        before.active_component() == Some(before.library.components@[i].id@),
        forall|j: int|
            0 <= j < i ==> #[trigger] before.library.components@[j].id@
                != before.library.components@[i].id@,
    ensures
        ({
            let name = text::trimmed(drafts.prop_name@);
            let old_part = before.library.components@[i];
            let new_part = after.library.components@[i];
            let known = exists|j: int|
                0 <= j < old_part.props@.len() && #[trigger] old_part.props@[j].name@ == name;
            &&& name.len() > 0 ==> new_part.props@ == old_part.props@.filter(
                |p: ComponentProp| p.name@ != name,
            )
            &&& new_part.id == old_part.id && new_part.name == old_part.name && new_part.root
                == old_part.root && new_part.states == old_part.states && new_part.variants
                == old_part.variants && new_part.slots == old_part.slots && new_part.logic
                == old_part.logic
            &&& forall|j: int|
                0 <= j < before.library.components@.len() && j != i
                    ==> #[trigger] after.library.components@[j] == before.library.components@[j]
            &&& after.selection == before.selection
            &&& name.len() == 0 ==> after == before && status
                == "Enter the property name to remove"@
            &&& name.len() > 0 && !known ==> after == before && status
                == "No property with that name exists"@
            &&& name.len() > 0 && known ==> after.pending.dirty && status
                == "Property removed · live graph updated"@
        }),
{
    let name = text::trimmed(drafts.prop_name@);
    let props = before.library.components@[i].props@;
    keyed::lemma_first_key(before.library.components@, before.library.components@[i].id@, 0);
    keyed::lemma_first_key(props, name, 0);
    keyed::law_without_keeps_the_order(props, name);
    assert forall|j: int| 0 <= j < props.len() implies (#[trigger] props[j]).key()
        == props[j].name@ by {}
    if name.len() > 0 {
        lemma_names_decide(props, name);
    }
}

proof fn lemma_names_decide(props: Seq<ComponentProp>, name: Seq<char>)
    ensures
        props.filter(|p: ComponentProp| p.key() != name) == props.filter(
            |p: ComponentProp| p.name@ != name,
        ),
        (forall|j: int| 0 <= j < props.len() ==> #[trigger] props[j].name@ != name) ==> props.filter(
            |p: ComponentProp| p.name@ != name,
        ) == props,
    decreases props.len(),
{
    reveal(Seq::filter);
    if props.len() > 0 {
        lemma_names_decide(props.drop_last(), name);
        assert(props.last().key() == props.last().name@);
        if forall|j: int| 0 <= j < props.len() ==> #[trigger] props[j].name@ != name {
            let front = props.drop_last();
            assert forall|j: int| 0 <= j < front.len() implies #[trigger] front[j].name@
                != name by {
                assert(front[j] == props[j]);
            }
            assert(props[props.len() - 1].name@ != name);
            assert(front.push(props.last()) =~= props);
        }
    }
}

/// The click interaction is added once, behind the others, to the active component: a click on
/// the root asks for the component action, without a guard and without a state to change.
pub proof fn law_root_click_is_added_once(
    before: Authoring,
    after: Authoring,
    status: Seq<char>,
    i: int,
)
    requires
        logic_added(before, after, status),
        0 <= i < before.library.components@.len(),
        before.library.active_component@ == before.library.components@[i].id@,
        forall|j: int|
            0 <= j < i ==> #[trigger] before.library.components@[j].id@
                != before.library.components@[i].id@,
    ensures
        ({
            let old_part = before.library.components@[i];
            let new_part = after.library.components@[i];
            let known = exists|j: int|
                0 <= j < old_part.logic@.len() && #[trigger] old_part.logic@[j].id@
                    == "root-click"@;
            &&& known ==> after == before && status == "Root click interaction already exists"@
            &&& !known ==> {
                let added = new_part.logic@[old_part.logic@.len() as int];
                &&& new_part.logic@.len() == old_part.logic@.len() + 1
                &&& forall|j: int|
                    0 <= j < old_part.logic@.len() ==> #[trigger] new_part.logic@[j]
                        == old_part.logic@[j]
                &&& added.id@ == "root-click"@
                &&& added.source_node@ == "root"@
                &&& added.event is Click
                &&& added.action@ == "component_action"@
                &&& added.guard is None && added.target_state is None && added.value is None
                &&& new_part.props == old_part.props && new_part.root == old_part.root
                    && new_part.states == old_part.states && new_part.id == old_part.id
                &&& after.pending.dirty && after.pending.quiet_ticks == 0
                &&& after.selection == before.selection
                &&& forall|j: int|
                    0 <= j < before.library.components@.len() && j != i
                        ==> #[trigger] after.library.components@[j]
                        == before.library.components@[j]
            }
        }),
{
    keyed::lemma_first_key(before.library.components@, before.library.active_component@, 0);
    keyed::lemma_first_key(before.library.components@[i].logic@, "root-click"@, 0);
}

/// A change of definition is asked for in one component alone: the open one, where the library
/// has it. The tokens, the active component and every other component stay.
pub proof fn law_definition_change_is_of_one_component(
    authoring: Authoring,
    change: DefinitionChange,
    out: Result<ComponentLibrary, &'static str>,
    i: int,
    k: int,
)
    requires
        definition_changed(authoring, change, out),
        0 <= i < authoring.library.components@.len(),
        authoring.active_component() == Some(authoring.library.components@[i].id@),
        forall|j: int|
            0 <= j < i ==> #[trigger] authoring.library.components@[j].id@
                != authoring.library.components@[i].id@,
    ensures
        out is Ok,
        out->Ok_0.components@.len() == authoring.library.components@.len(),
        out->Ok_0.tokens@ == authoring.library.tokens@,
        out->Ok_0.active_component == authoring.library.active_component,
        0 <= k < authoring.library.components@.len() && k != i ==> {
            let kept = out->Ok_0.components@[k];
            let old_part = authoring.library.components@[k];
            &&& kept.id@ == old_part.id@ && kept.name@ == old_part.name@
            &&& kept.props@ == old_part.props@ && kept.states@ == old_part.states@
            &&& kept.logic@ == old_part.logic@
            &&& kept.variants@.len() == old_part.variants@.len()
            &&& kept.slots@.len() == old_part.slots@.len()
            &&& kept.root@ == old_part.root@
        },
{
    keyed::lemma_first_key(authoring.library.components@, authoring.library.components@[i].id@, 0);
}

/// Without an open component that the library has, no property is added or removed, and people
/// are told which is missing.
pub proof fn law_properties_need_an_open_component(
    before: Authoring,
    after: Authoring,
    drafts: InspectorDrafts,
    status: Seq<char>,
)
    requires
        forall|j: int|
            0 <= j < before.library.components@.len() ==> Some(
                #[trigger] before.library.components@[j].id@,
            ) != before.active_component(),
        (property_added(before, after, drafts, status) && identifiers::portable_identifier(
            text::trimmed(drafts.prop_name@),
        ) && identifiers::portable_types().contains(text::trimmed(drafts.prop_type@))
            && text::byte_len(text::trimmed(drafts.prop_default@)) <= 16384) || (property_removed(
            before,
            after,
            drafts,
            status,
        ) && text::trimmed(drafts.prop_name@).len() > 0),
    ensures
        after == before,
        before.active_component() is None ==> status
            == "Open a component document to edit its property contract"@,
        before.active_component() is Some ==> status == "The active component no longer exists"@,
{
    if before.active_component() is Some {
        keyed::lemma_first_key(before.library.components@, before.active_component()->0, 0);
    }
}

/// Without a component that the library has as its active one, no interaction is added.
pub proof fn law_interactions_need_an_active_component(
    before: Authoring,
    after: Authoring,
    status: Seq<char>,
)
    requires
        logic_added(before, after, status),
        forall|j: int|
            0 <= j < before.library.components@.len()
                ==> #[trigger] before.library.components@[j].id@
                != before.library.active_component@,
    ensures
        after == before,
        status == "No component is available for an interaction"@,
{
    keyed::lemma_first_key(before.library.components@, before.library.active_component@, 0);
}

/// A definition is only changed while a component is open and the library has it.
pub proof fn law_definitions_need_an_open_component(
    authoring: Authoring,
    change: DefinitionChange,
    out: Result<ComponentLibrary, &'static str>,
)
    requires
        definition_changed(authoring, change, out),
        forall|j: int|
            0 <= j < authoring.library.components@.len() ==> Some(
                #[trigger] authoring.library.components@[j].id@,
            ) != authoring.active_component(),
    ensures
        out is Err,
        authoring.active_component() is None ==> out->Err_0@
            == "Open a component document to edit its definition"@,
        authoring.active_component() is Some ==> out->Err_0@
            == "The active component no longer exists"@,
{
    if authoring.active_component() is Some {
        keyed::lemma_first_key(authoring.library.components@, authoring.active_component()->0, 0);
    }
}

/// The IDs of inserted nodes start with their kind.
pub proof fn law_kinds_lead_their_ids(x: NativeNodeKind)
    ensures
        x is Row ==> kind_prefix(x) == "row"@,
        x is Column ==> kind_prefix(x) == "column"@,
        x is Grid ==> kind_prefix(x) == "grid"@,
        x is Stack ==> kind_prefix(x) == "stack"@,
        x is Text ==> kind_prefix(x) == "text"@,
        x is Button ==> kind_prefix(x) == "button"@,
        x is Titlebar ==> kind_prefix(x) == "titlebar"@,
        x is Instance ==> kind_prefix(x) == "instance"@,
{
}

/// Each kind of node has its name.
pub proof fn law_kinds_are_named(x: NativeNodeKind)
    ensures
        x is Row ==> kind_label(x) == "Row"@,
        x is Column ==> kind_label(x) == "Column"@,
        x is Grid ==> kind_label(x) == "Grid"@,
        x is Stack ==> kind_label(x) == "Stack"@,
        x is Text ==> kind_label(x) == "Text"@,
        x is Button ==> kind_label(x) == "Button"@,
        x is Titlebar ==> kind_label(x) == "Titlebar"@,
        x is Instance ==> kind_label(x) == "Instance"@,
{
}

} // verus!
