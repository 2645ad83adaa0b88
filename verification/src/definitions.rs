//! Edits of a component's definition: states, variants, slots, properties, logic and tokens.
use vstd::prelude::*;

use crate::components::{
    ComponentLibrary, ComponentLogic, ComponentSlot, ComponentState,
    ComponentVariant, ComponentVariantOverride, DesignToken, DesignTokenKind, NativeComponent,
    NativeNode,
};
use crate::identifiers;
use crate::keyed;
use crate::text;

verus! {

/// The text fields of the definition editor.
#[derive(Clone, Copy, Debug, PartialEq, Eq, Structural)]
pub enum DefinitionDraftField {
    StateName,
    StateType,
    StateDefault,
    VariantId,
    VariantName,
    SlotName,
    SlotNode,
    TokenPath,
    TokenKind,
    TokenValue,
    TokenDescription,
}

/// What is typed into the definition editor.
#[derive(Debug)]
pub struct DefinitionDrafts {
    pub state_name: String,
    pub state_type: String,
    pub state_default: String,
    pub variant_id: String,
    pub variant_name: String,
    pub slot_name: String,
    pub slot_node: String,
    pub token_path: String,
    pub token_kind: String,
    pub token_value: String,
    pub token_description: String,
}

impl DefinitionDrafts {
    /// What is typed into one field.
    pub open spec fn draft(&self, field: DefinitionDraftField) -> Seq<char> {
        match field {
            DefinitionDraftField::StateName => self.state_name@,
            DefinitionDraftField::StateType => self.state_type@,
            DefinitionDraftField::StateDefault => self.state_default@,
            DefinitionDraftField::VariantId => self.variant_id@,
            DefinitionDraftField::VariantName => self.variant_name@,
            DefinitionDraftField::SlotName => self.slot_name@,
            DefinitionDraftField::SlotNode => self.slot_node@,
            DefinitionDraftField::TokenPath => self.token_path@,
            DefinitionDraftField::TokenKind => self.token_kind@,
            DefinitionDraftField::TokenValue => self.token_value@,
            DefinitionDraftField::TokenDescription => self.token_description@,
        }
    }

    /// What a new session shows: a boolean state that is off, and a color token.
    pub open spec fn initial_draft(field: DefinitionDraftField) -> Seq<char> {
        match field {
            DefinitionDraftField::StateType => "bool"@,
            DefinitionDraftField::StateDefault => "false"@,
            DefinitionDraftField::TokenKind => "Color"@,
            _ => ""@,
        }
    }

    /// The drafts of a new session.
    pub fn initial() -> (drafts: DefinitionDrafts)
        ensures
            forall|field: DefinitionDraftField| #[trigger]
                drafts.draft(field) == DefinitionDrafts::initial_draft(field),
    {
        DefinitionDrafts {
            state_name: "".to_owned(),
            state_type: "bool".to_owned(),
            state_default: "false".to_owned(),
            variant_id: "".to_owned(),
            variant_name: "".to_owned(),
            slot_name: "".to_owned(),
            slot_node: "".to_owned(),
            token_path: "".to_owned(),
            token_kind: "Color".to_owned(),
            token_value: "".to_owned(),
            token_description: "".to_owned(),
        }
    }

    /// What is typed into one field.
    pub fn definition_draft(&self, field: DefinitionDraftField) -> (out: String)
        ensures
            out@ == self.draft(field),
    {
        match field {
            DefinitionDraftField::StateName => self.state_name.clone(),
            DefinitionDraftField::StateType => self.state_type.clone(),
            DefinitionDraftField::StateDefault => self.state_default.clone(),
            DefinitionDraftField::VariantId => self.variant_id.clone(),
            DefinitionDraftField::VariantName => self.variant_name.clone(),
            DefinitionDraftField::SlotName => self.slot_name.clone(),
            DefinitionDraftField::SlotNode => self.slot_node.clone(),
            DefinitionDraftField::TokenPath => self.token_path.clone(),
            DefinitionDraftField::TokenKind => self.token_kind.clone(),
            DefinitionDraftField::TokenValue => self.token_value.clone(),
            DefinitionDraftField::TokenDescription => self.token_description.clone(),
        }
    }

    /// Types into one field.
    pub fn set_definition_draft(&mut self, field: DefinitionDraftField, value: String)
        ensures
            forall|other: DefinitionDraftField| #[trigger]
                final(self).draft(other) == (if other == field {
                    value@
                } else {
                    old(self).draft(other)
                }),
    {
        match field {
            DefinitionDraftField::StateName => {
                self.state_name = value;
            },
            DefinitionDraftField::StateType => {
                self.state_type = value;
            },
            DefinitionDraftField::StateDefault => {
                self.state_default = value;
            },
            DefinitionDraftField::VariantId => {
                self.variant_id = value;
            },
            DefinitionDraftField::VariantName => {
                self.variant_name = value;
            },
            DefinitionDraftField::SlotName => {
                self.slot_name = value;
            },
            DefinitionDraftField::SlotNode => {
                self.slot_node = value;
            },
            DefinitionDraftField::TokenPath => {
                self.token_path = value;
            },
            DefinitionDraftField::TokenKind => {
                self.token_kind = value;
            },
            DefinitionDraftField::TokenValue => {
                self.token_value = value;
            },
            DefinitionDraftField::TokenDescription => {
                self.token_description = value;
            },
        }
    }
}

/// One edit of a component's definition.
#[derive(Debug)]
pub enum DefinitionChange {
    /// Adds a state or replaces the one of its name.
    PutState(ComponentState),
    /// Removes the states of this name and what sets them.
    DropState(String),
    /// Names a variant, adding it where it is new.
    NameVariant { id: String, name: String },
    /// Adds an override to a variant or replaces the one of its node.
    CaptureOverride { variant_id: String, captured: ComponentVariantOverride },
    /// Removes the variants with this ID.
    DropVariant(String),
    /// Adds a slot or replaces the one of its name.
    PutSlot(ComponentSlot),
    /// Removes the slots of this name.
    DropSlot(String),
}

/// How people are told of an edit.
pub open spec fn change_text(change: DefinitionChange) -> Seq<char> {
    match change {
        DefinitionChange::PutState(_) => "State updated"@,
        DefinitionChange::DropState(_) => "State removed"@,
        DefinitionChange::NameVariant { .. } => "Variant updated"@,
        DefinitionChange::CaptureOverride { .. } => "Variant override captured"@,
        DefinitionChange::DropVariant(_) => "Variant removed"@,
        DefinitionChange::PutSlot(_) => "Slot updated"@,
        DefinitionChange::DropSlot(_) => "Slot removed"@,
    }
}

/// How people are told of an edit.
pub fn describe_definition_change(change: &DefinitionChange) -> (out: &'static str)
    ensures
        out@ == change_text(*change),
{
    match change {
        DefinitionChange::PutState(_) => "State updated",
        DefinitionChange::DropState(_) => "State removed",
        DefinitionChange::NameVariant { .. } => "Variant updated",
        DefinitionChange::CaptureOverride { .. } => "Variant override captured",
        DefinitionChange::DropVariant(_) => "Variant removed",
        DefinitionChange::PutSlot(_) => "Slot updated",
        DefinitionChange::DropSlot(_) => "Slot removed",
    }
}

/// Whether this comes of saving the drafted state.
pub open spec fn state_planned(
    drafts: DefinitionDrafts,
    result: Result<DefinitionChange, &'static str>,
) -> bool {
    let name = text::trimmed(drafts.state_name@);
    let value_type = text::trimmed(drafts.state_type@);
    if identifiers::portable_identifier(name) && identifiers::portable_types().contains(
        value_type,
    ) {
        &&& result matches Ok(DefinitionChange::PutState(state))
        &&& state.name@ == name
        &&& state.value_type@ == value_type
        &&& state.default@ == drafts.state_default@
    } else {
        result is Err && result->Err_0@
            == "State requires a portable name and scalar type"@
    }
}

/// The state edit that the drafts ask for: a portable name and a scalar type are needed.
pub fn save_component_state(drafts: &DefinitionDrafts) -> (result: Result<
    DefinitionChange,
    &'static str,
>)
    ensures
        state_planned(*drafts, result),
{
    let name = text::trim(drafts.state_name.as_str());
    let value_type = text::trim(drafts.state_type.as_str());
    proof {
        text::law_trim_idempotent(drafts.state_type@);
    }
    if !identifiers::is_portable_identifier(name) || !identifiers::is_portable_type(value_type) {
        return Err("State requires a portable name and scalar type");
    }
    Ok(
        DefinitionChange::PutState(
            ComponentState {
                name: name.to_owned(),
                value_type: value_type.to_owned(),
                default: drafts.state_default.clone(),
            },
        ),
    )
}

/// The removal of the state that the drafts name.
pub fn remove_component_state(drafts: &DefinitionDrafts) -> (change: DefinitionChange)
    ensures
        change matches DefinitionChange::DropState(name) && name@ == text::trimmed(
            drafts.state_name@,
        ),
{
    DefinitionChange::DropState(text::trim(drafts.state_name.as_str()).to_owned())
}

/// Whether this comes of naming the drafted variant.
pub open spec fn variant_planned(
    drafts: DefinitionDrafts,
    result: Result<DefinitionChange, &'static str>,
) -> bool {
    let id = text::trimmed(drafts.variant_id@);
    let name = text::trimmed(drafts.variant_name@);
    if identifiers::portable_identifier(id) && name.len() > 0 && text::byte_len(
        drafts.variant_name@,
    ) <= 128 {
        &&& result matches Ok(DefinitionChange::NameVariant { id: new_id, name: new_name })
        &&& new_id@ == id
        &&& new_name@ == name
    } else {
        result is Err && result->Err_0@
            == "Variant requires a portable ID and a display name"@
    }
}

/// The variant edit that the drafts ask for: a portable ID and a display name are needed.
pub fn save_component_variant(drafts: &DefinitionDrafts) -> (result: Result<
    DefinitionChange,
    &'static str,
>)
    ensures
        variant_planned(*drafts, result),
{
    let id = text::trim(drafts.variant_id.as_str());
    let name = text::trim(drafts.variant_name.as_str());
    if !identifiers::is_portable_identifier(id) || name.unicode_len() == 0 || text::bytes_in(
        drafts.variant_name.as_str(),
    ) > 128 {
        return Err("Variant requires a portable ID and a display name");
    }
    Ok(DefinitionChange::NameVariant { id: id.to_owned(), name: name.to_owned() })
}

/// Whether this comes of capturing the selected node for the drafted variant.
pub open spec fn override_planned(
    drafts: DefinitionDrafts,
    selected: Option<&NativeNode>,
    active: Option<&NativeComponent>,
    result: Result<DefinitionChange, &'static str>,
) -> bool {
    let variant = text::trimmed(drafts.variant_id@);
    match selected {
        None => result is Err && result->Err_0@
            == "Select a component node before capturing an override"@,
        Some(node) => if active is Some && keyed::first_key(
            active->0.variants@,
            variant,
            0,
        ) is Some {
            &&& result matches Ok(
                DefinitionChange::CaptureOverride { variant_id, captured },
            )
            &&& variant_id@ == variant
            &&& captured.node_id == node.id
            &&& captured.layout == Some(node.layout)
            &&& captured.appearance == Some(node.appearance)
            &&& captured.typography == Some(node.typography)
            &&& captured.text == Some(node.text)
            &&& captured.state == Some(node.state)
        } else {
            result is Err && result->Err_0@
                == "Save the variant before capturing a node override"@
        },
    }
}

/// The capture of the selected node's look into the variant that the drafts name; a node has
/// to be selected, and the active component has to have the variant.
pub fn capture_variant_override(
    drafts: &DefinitionDrafts,
    selected: Option<&NativeNode>,
    active: Option<&NativeComponent>,
) -> (result: Result<DefinitionChange, &'static str>)
    ensures
        override_planned(*drafts, selected, active, result),
{
    let variant = text::trim(drafts.variant_id.as_str());
    let node = match selected {
        Some(node) => node,
        None => return Err("Select a component node before capturing an override"),
    };
    let known = match active {
        Some(component) => keyed::find(&component.variants, variant).is_some(),
        None => false,
    };
    if !known {
        return Err("Save the variant before capturing a node override");
    }
    Ok(
        DefinitionChange::CaptureOverride {
            variant_id: variant.to_owned(),
            captured: ComponentVariantOverride {
                node_id: node.id.clone(),
                layout: Some(node.layout),
                appearance: Some(node.appearance),
                typography: Some(node.typography.clone()),
                text: Some(node.text.clone()),
                state: Some(node.state),
            },
        },
    )
}

/// The removal of the variant that the drafts name.
pub fn remove_component_variant(drafts: &DefinitionDrafts) -> (change: DefinitionChange)
    ensures
        change matches DefinitionChange::DropVariant(id) && id@ == text::trimmed(
            drafts.variant_id@,
        ),
{
    DefinitionChange::DropVariant(text::trim(drafts.variant_id.as_str()).to_owned())
}

/// Whether this comes of saving the drafted slot.
pub open spec fn slot_planned(
    drafts: DefinitionDrafts,
    multiple: bool,
    result: Result<DefinitionChange, &'static str>,
) -> bool {
    let name = text::trimmed(drafts.slot_name@);
    let node = text::trimmed(drafts.slot_node@);
    if identifiers::portable_identifier(name) && identifiers::portable_identifier(node) {
        &&& result matches Ok(DefinitionChange::PutSlot(slot))
        &&& slot.name@ == name
        &&& slot.node_id@ == node
        &&& slot.multiple == multiple
        &&& slot.accepted_kinds@.len() == 0
    } else {
        result is Err && result->Err_0@
            == "Slot requires a portable name and container node ID"@
    }
}

/// The slot edit that the drafts ask for: a portable name and node ID are needed.
pub fn save_component_slot(drafts: &DefinitionDrafts, multiple: bool) -> (result: Result<
    DefinitionChange,
    &'static str,
>)
    ensures
        slot_planned(*drafts, multiple, result),
{
    let name = text::trim(drafts.slot_name.as_str());
    let node = text::trim(drafts.slot_node.as_str());
    if !identifiers::is_portable_identifier(name) || !identifiers::is_portable_identifier(node) {
        return Err("Slot requires a portable name and container node ID");
    }
    Ok(
        DefinitionChange::PutSlot(
            ComponentSlot {
                name: name.to_owned(),
                node_id: node.to_owned(),
                multiple,
                accepted_kinds: Vec::new(),
            },
        ),
    )
}

/// The removal of the slot that the drafts name.
pub fn remove_component_slot(drafts: &DefinitionDrafts) -> (change: DefinitionChange)
    ensures
        change matches DefinitionChange::DropSlot(name) && name@ == text::trimmed(
            drafts.slot_name@,
        ),
{
    DefinitionChange::DropSlot(text::trim(drafts.slot_name.as_str()).to_owned())
}

/// A rule that no longer sets this state.
pub open spec fn without_target(logic: ComponentLogic, state: Seq<char>) -> ComponentLogic {
    if text::text_view(logic.target_state) == Some(state) {
        ComponentLogic { target_state: None, value: None, ..logic }
    } else {
        logic
    }
}

/// The variants with one of them named; a new one comes last and overrides nothing.
pub open spec fn variants_named(
    before: Seq<ComponentVariant>,
    after: Seq<ComponentVariant>,
    id: String,
    name: String,
) -> bool {
    match keyed::first_key(before, id@, 0) {
        Some(i) => after == before.update(i, ComponentVariant { name, ..before[i] }),
        None => {
            &&& after == before.push(after.last())
            &&& after.last().id == id
            &&& after.last().name == name
            &&& after.last().overrides@.len() == 0
        },
    }
}

/// The variants with an override placed in one of them; nothing where the variant is missing.
pub open spec fn variants_captured(
    before: Seq<ComponentVariant>,
    after: Seq<ComponentVariant>,
    id: Seq<char>,
    captured: ComponentVariantOverride,
) -> bool {
    match keyed::first_key(before, id, 0) {
        Some(i) => {
            &&& after == before.update(i, after[i])
            &&& after[i] == (ComponentVariant { overrides: after[i].overrides, ..before[i] })
            &&& after[i].overrides@ == keyed::placed(before[i].overrides@, captured)
        },
        None => after == before,
    }
}

/// What an edit makes of a component.
pub open spec fn changed_component(
    before: NativeComponent,
    after: NativeComponent,
    change: DefinitionChange,
) -> bool {
    match change {
        DefinitionChange::PutState(state) => {
            &&& after == (NativeComponent { states: after.states, ..before })
            &&& after.states@ == keyed::placed(before.states@, state)
        },
        DefinitionChange::DropState(name) => {
            &&& after == (NativeComponent { states: after.states, logic: after.logic, ..before })
            &&& after.states@ == keyed::without(before.states@, name@)
            &&& after.logic@.len() == before.logic@.len()
            &&& forall|i: int|
                0 <= i < after.logic@.len() ==> #[trigger] after.logic@[i] == without_target(
                    before.logic@[i],
                    name@,
                )
        },
        DefinitionChange::NameVariant { id, name } => {
            &&& after == (NativeComponent { variants: after.variants, ..before })
            &&& variants_named(before.variants@, after.variants@, id, name)
        },
        DefinitionChange::CaptureOverride { variant_id, captured } => {
            &&& after == (NativeComponent { variants: after.variants, ..before })
            &&& variants_captured(before.variants@, after.variants@, variant_id@, captured)
        },
        DefinitionChange::DropVariant(id) => {
            &&& after == (NativeComponent { variants: after.variants, ..before })
            &&& after.variants@ == keyed::without(before.variants@, id@)
        },
        DefinitionChange::PutSlot(slot) => {
            &&& after == (NativeComponent { slots: after.slots, ..before })
            &&& after.slots@ == keyed::placed(before.slots@, slot)
        },
        DefinitionChange::DropSlot(name) => {
            &&& after == (NativeComponent { slots: after.slots, ..before })
            &&& after.slots@ == keyed::without(before.slots@, name@)
        },
    }
}

fn clear_target(logic: &mut Vec<ComponentLogic>, state: &str)
    ensures
        final(logic)@.len() == old(logic)@.len(),
        forall|i: int|
            0 <= i < final(logic)@.len() ==> #[trigger] final(logic)@[i] == without_target(
                old(logic)@[i],
                state@,
            ),
{
    let ghost before = logic@;
    let mut i: usize = 0;
    while i < logic.len()
        invariant
            i <= logic.len(),
            logic.len() == before.len(),
            before == old(logic)@,
            forall|j: int| 0 <= j < i ==> #[trigger] logic@[j] == without_target(before[j], state@),
            forall|j: int| i <= j < logic.len() ==> #[trigger] logic@[j] == before[j],
        decreases logic.len() - i,
    {
        if text::is_text(&logic[i].target_state, state) {
            let mut rule = logic[i].clone();
            rule.target_state = None;
            rule.value = None;
            logic.set(i, rule);
        }
        i += 1;
    }
}

/// Applies an edit to a component.
pub fn apply_definition_change(component: &mut NativeComponent, change: DefinitionChange)
    ensures
        changed_component(*old(component), *final(component), change),
{
    match change {
        DefinitionChange::PutState(state) => {
            keyed::place(&mut component.states, state);
        },
        DefinitionChange::DropState(name) => {
            keyed::remove_all(&mut component.states, name.as_str());
            clear_target(&mut component.logic, name.as_str());
        },
        DefinitionChange::NameVariant { id, name } => {
            match keyed::find(&component.variants, id.as_str()) {
                Some(i) => {
                    let mut variant = component.variants.remove(i);
                    variant.name = name;
                    component.variants.insert(i, variant);
                    proof {
                        assert(component.variants@ =~= old(component).variants@.update(
                            i as int,
                            variant,
                        ));
                    }
                },
                None => {
                    component.variants.push(ComponentVariant { id, name, overrides: Vec::new() });
                },
            }
        },
        DefinitionChange::CaptureOverride { variant_id, captured } => {
            match keyed::find(&component.variants, variant_id.as_str()) {
                Some(i) => {
                    let mut variant = component.variants.remove(i);
                    keyed::place(&mut variant.overrides, captured);
                    component.variants.insert(i, variant);
                    proof {
                        assert(component.variants@ =~= old(component).variants@.update(
                            i as int,
                            variant,
                        ));
                    }
                },
                None => {},
            }
        },
        DefinitionChange::DropVariant(id) => {
            keyed::remove_all(&mut component.variants, id.as_str());
        },
        DefinitionChange::PutSlot(slot) => {
            keyed::place(&mut component.slots, slot);
        },
        DefinitionChange::DropSlot(name) => {
            keyed::remove_all(&mut component.slots, name.as_str());
        },
    }
}

/// After a state is removed no state has its name and no rule sets it.
pub proof fn law_removed_state_is_gone(
    before: NativeComponent,
    after: NativeComponent,
    name: String,
)
    requires
        changed_component(before, after, DefinitionChange::DropState(name)),
    ensures
        keyed::first_key(after.states@, name@, 0) is None,
        forall|i: int|
            0 <= i < after.logic@.len() ==> text::text_view(
                (#[trigger] after.logic@[i]).target_state,
            ) != Some(name@),
{
    keyed::law_without_key(before.states@, name@);
}

/// Naming a variant keeps its overrides.
pub proof fn law_named_variant_keeps_overrides(
    before: NativeComponent,
    after: NativeComponent,
    id: String,
    name: String,
)
    requires
        changed_component(before, after, DefinitionChange::NameVariant { id, name }),
        keyed::first_key(before.variants@, id@, 0) is Some,
    ensures
        after.variants@.len() == before.variants@.len(),
        forall|i: int|
            0 <= i < after.variants@.len() ==> (#[trigger] after.variants@[i]).overrides
                == before.variants@[i].overrides && after.variants@[i].id
                == before.variants@[i].id,
{
    keyed::lemma_first_key(before.variants@, id@, 0);
}

/// Capturing a node for a variant replaces what the variant overrides of that node, or adds it,
/// and nothing else: what it overrides of any other node is found as before, no override is
/// lost, and the other variants and the rest of the component stay as they are.
pub proof fn law_captured_override_joins_the_others(
    before: NativeComponent,
    after: NativeComponent,
    variant_id: String,
    captured: ComponentVariantOverride,
    i: int,
    node_id: Seq<char>,
)
    requires
        changed_component(
            before,
            after,
            DefinitionChange::CaptureOverride { variant_id, captured },
        ),
        0 <= i < before.variants@.len(),
        before.variants@[i].id@ == variant_id@,
        forall|j: int| 0 <= j < i ==> (#[trigger] before.variants@[j]).id@ != variant_id@,
    ensures
        after == (NativeComponent { variants: after.variants, ..before }),
        after.variants@.len() == before.variants@.len(),
        forall|j: int|
            0 <= j < after.variants@.len() && j != i ==> #[trigger] after.variants@[j]
                == before.variants@[j],
        after.variants@[i].id == before.variants@[i].id,
        after.variants@[i].name == before.variants@[i].name,
        after.variants@[i].overrides@.len() >= before.variants@[i].overrides@.len(),
        exists|k: int|
            0 <= k < after.variants@[i].overrides@.len()
                && #[trigger] after.variants@[i].overrides@[k] == captured,
        forall|k: int|
            0 <= k < after.variants@[i].overrides@.len() && (
            #[trigger] after.variants@[i].overrides@[k]).node_id@ != captured.node_id@
                ==> before.variants@[i].overrides@[k] == after.variants@[i].overrides@[k],
        forall|k: int|
            0 <= k < before.variants@[i].overrides@.len() && (
            #[trigger] before.variants@[i].overrides@[k]).node_id@ != captured.node_id@
                ==> after.variants@[i].overrides@[k] == before.variants@[i].overrides@[k],
        match keyed::first_key(after.variants@[i].overrides@, node_id, 0) {
            Some(k) => if node_id == captured.node_id@ {
                after.variants@[i].overrides@[k] == captured
            } else {
                keyed::first_key(before.variants@[i].overrides@, node_id, 0) == Some(k)
                    && before.variants@[i].overrides@[k] == after.variants@[i].overrides@[k]
            },
            None => node_id != captured.node_id@ && keyed::first_key(
                before.variants@[i].overrides@,
                node_id,
                0,
            ) is None,
        },
{
    keyed::lemma_first_key(before.variants@, variant_id@, 0);
    match keyed::first_key(before.variants@, variant_id@, 0) {
        Some(j) => {
            if j > i {
                assert(before.variants@[i].id@ != variant_id@);
            }
            if j < i {
                assert(before.variants@[j].id@ == variant_id@);
            }
        },
        None => {
            assert(before.variants@[i].id@ != variant_id@);
        },
    }
    let had = before.variants@[i].overrides@;
    let has = after.variants@[i].overrides@;
    keyed::law_placed_item_is_found(had, captured);
    keyed::lemma_first_key(had, captured.node_id@, 0);
    keyed::lemma_first_key(has, node_id, 0);
    let k = keyed::first_key(has, captured.node_id@, 0)->0;
    keyed::lemma_first_key(has, captured.node_id@, 0);
    assert(has[k] == captured);
    assert forall|m: int|
        0 <= m < had.len() && (#[trigger] had[m]).node_id@ != captured.node_id@ implies has[m]
        == had[m] by {
        assert(keyed::placed(had, captured)[m] == had[m]);
    }
}

/// Saving a state adds it or replaces the one of its name; every other state stays what and
/// where it was, and so does the rest of the component.
pub proof fn law_saved_state_joins_the_others(
    before: NativeComponent,
    after: NativeComponent,
    state: ComponentState,
)
    requires
        changed_component(before, after, DefinitionChange::PutState(state)),
    ensures
        after == (NativeComponent { states: after.states, ..before }),
        after.states@.len() >= before.states@.len(),
        exists|k: int| 0 <= k < after.states@.len() && #[trigger] after.states@[k] == state,
        forall|k: int|
            0 <= k < before.states@.len() && (#[trigger] before.states@[k]).name@ != state.name@
                ==> after.states@[k] == before.states@[k],
        forall|k: int|
            0 <= k < after.states@.len() && (#[trigger] after.states@[k]).name@ != state.name@
                ==> k < before.states@.len() && before.states@[k] == after.states@[k],
        keyed::first_key(after.states@, state.name@, 0) matches Some(k) && after.states@[k]
            == state,
{
    keyed::law_placed_item_is_found(before.states@, state);
    keyed::lemma_first_key(before.states@, state.name@, 0);
    keyed::lemma_first_key(after.states@, state.name@, 0);
    let k = keyed::first_key(after.states@, state.name@, 0)->0;
    assert(after.states@[k] == state);
    assert forall|m: int|
        0 <= m < before.states@.len() && (#[trigger] before.states@[m]).name@
            != state.name@ implies after.states@[m] == before.states@[m] by {
        assert(keyed::placed(before.states@, state)[m] == before.states@[m]);
    }
}

/// Saving a slot adds it or replaces the one of its name; every other slot stays what and where
/// it was, and so does the rest of the component.
pub proof fn law_saved_slot_joins_the_others(
    before: NativeComponent,
    after: NativeComponent,
    slot: ComponentSlot,
)
    requires
        changed_component(before, after, DefinitionChange::PutSlot(slot)),
    ensures
        after == (NativeComponent { slots: after.slots, ..before }),
        after.slots@.len() >= before.slots@.len(),
        exists|k: int| 0 <= k < after.slots@.len() && #[trigger] after.slots@[k] == slot,
        forall|k: int|
            0 <= k < before.slots@.len() && (#[trigger] before.slots@[k]).name@ != slot.name@
                ==> after.slots@[k] == before.slots@[k],
        forall|k: int|
            0 <= k < after.slots@.len() && (#[trigger] after.slots@[k]).name@ != slot.name@
                ==> k < before.slots@.len() && before.slots@[k] == after.slots@[k],
        keyed::first_key(after.slots@, slot.name@, 0) matches Some(k) && after.slots@[k] == slot,
{
    keyed::law_placed_item_is_found(before.slots@, slot);
    keyed::lemma_first_key(before.slots@, slot.name@, 0);
    keyed::lemma_first_key(after.slots@, slot.name@, 0);
    let k = keyed::first_key(after.slots@, slot.name@, 0)->0;
    assert(after.slots@[k] == slot);
    assert forall|m: int|
        0 <= m < before.slots@.len() && (#[trigger] before.slots@[m]).name@
            != slot.name@ implies after.slots@[m] == before.slots@[m] by {
        assert(keyed::placed(before.slots@, slot)[m] == before.slots@[m]);
    }
}

/// Removing a state, a variant or a slot removes the ones of that name or ID and no others. A
/// rule that set the removed state no longer sets any, and every other rule stays as it is.
pub proof fn law_removals_leave_the_rest(
    before: NativeComponent,
    after: NativeComponent,
    change: DefinitionChange,
)
    requires
        changed_component(before, after, change),
    ensures
        change matches DefinitionChange::DropState(name) ==> {
            &&& after == (NativeComponent { states: after.states, logic: after.logic, ..before })
            &&& forall|state: ComponentState| #[trigger]
                after.states@.contains(state) <==> before.states@.contains(state) && state.name@
                    != name@
            &&& after.logic@.len() == before.logic@.len()
            &&& forall|i: int|
                0 <= i < before.logic@.len() ==> {
                    let rule = #[trigger] after.logic@[i];
                    let had = before.logic@[i];
                    &&& rule.id == had.id
                    &&& rule.source_node == had.source_node
                    &&& rule.event == had.event
                    &&& rule.action == had.action
                    &&& rule.guard == had.guard
                    &&& if had.target_state is Some && had.target_state->0@ == name@ {
                        rule.target_state is None && rule.value is None
                    } else {
                        rule == had
                    }
                }
        },
        change matches DefinitionChange::DropVariant(id) ==> {
            &&& after == (NativeComponent { variants: after.variants, ..before })
            &&& forall|variant: ComponentVariant| #[trigger]
                after.variants@.contains(variant) <==> before.variants@.contains(variant)
                    && variant.id@ != id@
        },
        change matches DefinitionChange::DropSlot(name) ==> {
            &&& after == (NativeComponent { slots: after.slots, ..before })
            &&& forall|slot: ComponentSlot| #[trigger]
                after.slots@.contains(slot) <==> before.slots@.contains(slot) && slot.name@
                    != name@
        },
{
    match change {
        DefinitionChange::DropState(name) => {
            keyed::law_without_key(before.states@, name@);
        },
        DefinitionChange::DropVariant(id) => {
            keyed::law_without_key(before.variants@, id@);
        },
        DefinitionChange::DropSlot(name) => {
            keyed::law_without_key(before.slots@, name@);
        },
        _ => {},
    }
}

/// Naming a variant that is not there adds it at the end, overriding nothing; naming one that is
/// there changes its name alone. The other variants stay as they are.
pub proof fn law_named_variant_is_there(
    before: NativeComponent,
    after: NativeComponent,
    id: String,
    name: String,
)
    requires
        changed_component(before, after, DefinitionChange::NameVariant { id, name }),
    ensures
        after == (NativeComponent { variants: after.variants, ..before }),
        exists|k: int|
            0 <= k < after.variants@.len() && (#[trigger] after.variants@[k]).id@ == id@
                && after.variants@[k].name@ == name@,
        after.variants@.len() >= before.variants@.len(),
        forall|k: int|
            0 <= k < before.variants@.len() && (#[trigger] before.variants@[k]).id@ != id@
                ==> after.variants@[k] == before.variants@[k],
        forall|k: int|
            0 <= k < before.variants@.len() ==> (#[trigger] after.variants@[k]).overrides
                == before.variants@[k].overrides,
        (forall|k: int|
            0 <= k < before.variants@.len() ==> (#[trigger] before.variants@[k]).id@ != id@)
            ==> after.variants@.len() == before.variants@.len() + 1
            && after.variants@.last().overrides@.len() == 0,
{
    keyed::lemma_first_key(before.variants@, id@, 0);
    match keyed::first_key(before.variants@, id@, 0) {
        Some(i) => {
            assert(after.variants@[i].id@ == id@);
        },
        None => {
            let last = after.variants@.len() - 1;
            assert(after.variants@[last].id@ == id@);
        },
    }
}

// ---------------------------------------------------------------------------
// Design tokens
// ---------------------------------------------------------------------------

/// The kind that a word names, in whatever case.
pub open spec fn token_kind(word: Seq<char>) -> Option<DesignTokenKind> {
    let word = text::trimmed(word);
    if text::same_ignoring_case(word, "color"@) {
        Some(DesignTokenKind::Color)
    } else if text::same_ignoring_case(word, "number"@) {
        Some(DesignTokenKind::Number)
    } else if text::same_ignoring_case(word, "typography"@) {
        Some(DesignTokenKind::Typography)
    } else if text::same_ignoring_case(word, "string"@) {
        Some(DesignTokenKind::String)
    } else {
        None
    }
}

fn parse_token_kind(word: &str) -> (kind: Option<DesignTokenKind>)
    ensures
        kind == token_kind(word@),
{
    let word = text::trim(word);
    if text::eq_ignoring_case(word, "color") {
        Some(DesignTokenKind::Color)
    } else if text::eq_ignoring_case(word, "number") {
        Some(DesignTokenKind::Number)
    } else if text::eq_ignoring_case(word, "typography") {
        Some(DesignTokenKind::Typography)
    } else if text::eq_ignoring_case(word, "string") {
        Some(DesignTokenKind::String)
    } else {
        None
    }
}

/// Whether this comes of saving the drafted token.
pub open spec fn token_planned(
    drafts: DefinitionDrafts,
    result: Result<DesignToken, &'static str>,
) -> bool {
    let path = text::trimmed(drafts.token_path@);
    match token_kind(drafts.token_kind@) {
        None => result is Err && result->Err_0@
            == "Token kind must be Color, Number, Typography, or String"@,
        Some(kind) => if identifiers::portable_identifier(path) && text::trimmed(
            drafts.token_value@,
        ).len() > 0 {
            &&& result is Ok
            &&& result->Ok_0.path@ == path
            &&& result->Ok_0.kind == kind
            &&& result->Ok_0.value@ == drafts.token_value@
            &&& result->Ok_0.description@ == drafts.token_description@
        } else {
            result is Err && result->Err_0@
                == "Token requires a dot-delimited portable path and value"@
        },
    }
}

/// The token that the drafts describe: a known kind, a portable path and a value are needed.
pub fn save_design_token(drafts: &DefinitionDrafts) -> (result: Result<DesignToken, &'static str>)
    ensures
        token_planned(*drafts, result),
{
    let kind = match parse_token_kind(drafts.token_kind.as_str()) {
        Some(kind) => kind,
        None => return Err("Token kind must be Color, Number, Typography, or String"),
    };
    let path = text::trim(drafts.token_path.as_str());
    if !identifiers::is_portable_identifier(path) || text::trim(
        drafts.token_value.as_str(),
    ).unicode_len() == 0 {
        return Err("Token requires a dot-delimited portable path and value");
    }
    Ok(
        DesignToken {
            path: path.to_owned(),
            kind,
            value: drafts.token_value.clone(),
            description: drafts.token_description.clone(),
        },
    )
}

/// Adds a token to the library or replaces the one of its path.
pub fn put_design_token(library: &mut ComponentLibrary, token: DesignToken)
    ensures
        *final(library) == (ComponentLibrary { tokens: final(library).tokens, ..*old(library) }),
        final(library).tokens@ == keyed::placed(old(library).tokens@, token),
{
    keyed::place(&mut library.tokens, token);
}

/// Removes the tokens with the path that the drafts name.
pub fn remove_design_token(library: &mut ComponentLibrary, drafts: &DefinitionDrafts)
    ensures
        *final(library) == (ComponentLibrary { tokens: final(library).tokens, ..*old(library) }),
        final(library).tokens@ == keyed::without(
            old(library).tokens@,
            text::trimmed(drafts.token_path@),
        ),
{
    let path = text::trim(drafts.token_path.as_str());
    keyed::remove_all(&mut library.tokens, path);
}

// ---------------------------------------------------------------------------
// What the drafts come to
// ---------------------------------------------------------------------------

/// A drafted state is saved just where its name and its type are portable, both without the white
/// space around them, and its default as it was typed.
pub proof fn law_drafted_states_are_saved(
    drafts: DefinitionDrafts,
    result: Result<DefinitionChange, &'static str>,
)
    requires
        state_planned(drafts, result),
    ensures
        result is Ok <==> identifiers::portable_identifier(text::trimmed(drafts.state_name@))
            && identifiers::portable_types().contains(text::trimmed(drafts.state_type@)),
        result is Ok ==> (result->Ok_0 matches DefinitionChange::PutState(state) && state.name@
            == text::trimmed(drafts.state_name@) && state.value_type@ == text::trimmed(
            drafts.state_type@,
        ) && state.default@ == drafts.state_default@),
        result is Err ==> result->Err_0@ == "State requires a portable name and scalar type"@,
{
}

/// A drafted variant is named just where its ID is portable and its name is there and short.
pub proof fn law_drafted_variants_are_named(
    drafts: DefinitionDrafts,
    result: Result<DefinitionChange, &'static str>,
)
    requires
        variant_planned(drafts, result),
    ensures
        result is Ok <==> identifiers::portable_identifier(text::trimmed(drafts.variant_id@))
            && text::trimmed(drafts.variant_name@).len() > 0 && text::byte_len(drafts.variant_name@)
            <= 128,
        result is Ok ==> (result->Ok_0 matches DefinitionChange::NameVariant { id, name } && id@
            == text::trimmed(drafts.variant_id@) && name@ == text::trimmed(drafts.variant_name@)),
        result is Err ==> result->Err_0@ == "Variant requires a portable ID and a display name"@,
{
}

/// The selected node is captured with everything it holds, for the drafted variant of the active
/// component; without a node, or before the variant is saved, nothing is.
pub proof fn law_selected_nodes_are_captured(
    drafts: DefinitionDrafts,
    node: &NativeNode,
    active: &NativeComponent,
    result: Result<DefinitionChange, &'static str>,
)
    requires
        override_planned(drafts, Some(node), Some(active), result),
    ensures
        result is Ok <==> exists|i: int|
            0 <= i < active.variants@.len() && #[trigger] active.variants@[i].id@ == text::trimmed(
                drafts.variant_id@,
            ),
        result is Ok ==> (result->Ok_0 matches DefinitionChange::CaptureOverride {
            variant_id,
            captured,
        } && variant_id@ == text::trimmed(drafts.variant_id@) && captured.node_id@ == node.id@
            && captured.layout == Some(node.layout) && captured.appearance == Some(node.appearance)
            && captured.typography == Some(node.typography) && captured.text == Some(node.text)
            && captured.state == Some(node.state)),
        result is Err ==> result->Err_0@ == "Save the variant before capturing a node override"@,
{
    keyed::lemma_first_key(active.variants@, text::trimmed(drafts.variant_id@), 0);
}

/// A drafted slot is saved just where its name and its node are portable; it takes one child or
/// many as chosen, of every kind.
pub proof fn law_drafted_slots_are_saved(
    drafts: DefinitionDrafts,
    multiple: bool,
    result: Result<DefinitionChange, &'static str>,
)
    requires
        slot_planned(drafts, multiple, result),
    ensures
        result is Ok <==> identifiers::portable_identifier(text::trimmed(drafts.slot_name@))
            && identifiers::portable_identifier(text::trimmed(drafts.slot_node@)),
        result is Ok ==> (result->Ok_0 matches DefinitionChange::PutSlot(slot) && slot.name@
            == text::trimmed(drafts.slot_name@) && slot.node_id@ == text::trimmed(drafts.slot_node@)
            && slot.multiple == multiple && slot.accepted_kinds@.len() == 0),
        result is Err ==> result->Err_0@ == "Slot requires a portable name and container node ID"@,
{
}

/// A drafted token is saved just where its kind is known, its path portable and its value there;
/// the value and the description stay as they were typed.
pub proof fn law_drafted_tokens_are_saved(
    drafts: DefinitionDrafts,
    result: Result<DesignToken, &'static str>,
)
    requires
        token_planned(drafts, result),
    ensures
        ({
            let known = token_kind(drafts.token_kind@) is Some;
            let full = identifiers::portable_identifier(text::trimmed(drafts.token_path@))
                && text::trimmed(drafts.token_value@).len() > 0;
            &&& result is Ok <==> known && full
            &&& result is Ok ==> result->Ok_0.path@ == text::trimmed(drafts.token_path@)
                && Some(result->Ok_0.kind) == token_kind(drafts.token_kind@)
                && result->Ok_0.value@ == drafts.token_value@ && result->Ok_0.description@
                == drafts.token_description@
            &&& !known ==> result->Err_0@
                == "Token kind must be Color, Number, Typography, or String"@
            &&& known && !full ==> result->Err_0@
                == "Token requires a dot-delimited portable path and value"@
        }),
{
}

/// A word names the kind that it spells in whatever case, and no other word names one.
pub proof fn law_words_name_token_kinds(word: Seq<char>)
    ensures
        text::same_ignoring_case(text::trimmed(word), "color"@) ==> token_kind(word) == Some(
            DesignTokenKind::Color,
        ),
        text::same_ignoring_case(text::trimmed(word), "number"@) ==> token_kind(word) == Some(
            DesignTokenKind::Number,
        ),
        text::same_ignoring_case(text::trimmed(word), "typography"@) ==> token_kind(word) == Some(
            DesignTokenKind::Typography,
        ),
        text::same_ignoring_case(text::trimmed(word), "string"@) ==> token_kind(word) == Some(
            DesignTokenKind::String,
        ),
        token_kind(word) is Some ==> text::same_ignoring_case(text::trimmed(word), "color"@)
            || text::same_ignoring_case(text::trimmed(word), "number"@)
            || text::same_ignoring_case(text::trimmed(word), "typography"@)
            || text::same_ignoring_case(text::trimmed(word), "string"@),
{
    reveal_strlit("color");
    reveal_strlit("number");
    reveal_strlit("typography");
    reveal_strlit("string");
    let w = text::trimmed(word);
    assert("color"@.len() == 5 && "number"@.len() == 6 && "typography"@.len() == 10);
    assert("string"@.len() == 6);
    assert("number"@[0] == 'n' && "string"@[0] == 's');
    if text::same_ignoring_case(w, "number"@) && text::same_ignoring_case(w, "string"@) {
        assert(text::ascii_lower(w[0]) == text::ascii_lower("number"@[0]));
        assert(text::ascii_lower(w[0]) == text::ascii_lower("string"@[0]));
    }
}

/// A new session drafts a boolean state that is off and a color token, and nothing else.
pub proof fn law_first_drafts(field: DefinitionDraftField)
    ensures
        field is StateType ==> DefinitionDrafts::initial_draft(field) == "bool"@,
        field is StateDefault ==> DefinitionDrafts::initial_draft(field) == "false"@,
        field is TokenKind ==> DefinitionDrafts::initial_draft(field) == "Color"@,
        !(field is StateType) && !(field is StateDefault) && !(field is TokenKind)
            ==> DefinitionDrafts::initial_draft(field) == ""@,
{
}

} // verus!
