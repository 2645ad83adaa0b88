//! Running components: their states and what clicks do to them.
use vstd::prelude::*;

use crate::components;
use crate::components::{NativeComponent, StateChange};
use crate::keyed;
use crate::studio;
use crate::studio::{Authoring, ComponentRuntime, StateValue};
use crate::text;

verus! {

/// The value of a state.
pub open spec fn state_of(values: Seq<StateValue>, name: Seq<char>) -> Option<Seq<char>> {
    match keyed::first_key(values, name, 0) {
        Some(i) => Some(values[i].value@),
        None => None,
    }
}

/// The value of a state after a row of changes: that of the last change of it, or what it was.
pub open spec fn overlaid(
    before: Option<Seq<char>>,
    changes: Seq<(Seq<char>, Seq<char>)>,
    name: Seq<char>,
) -> Option<Seq<char>>
    decreases changes.len(),
{
    if changes.len() == 0 {
        before
    } else if changes.last().0 == name {
        Some(changes.last().1)
    } else {
        overlaid(before, changes.drop_last(), name)
    }
}

fn apply_changes(values: &mut Vec<StateValue>, changes: &Vec<StateChange>)
    ensures
        forall|name: Seq<char>| #[trigger]
            state_of(final(values)@, name) == overlaid(
                state_of(old(values)@, name),
                components::change_views(changes@),
                name,
            ),
{
    let ghost all = components::change_views(changes@);
    let ghost before = values@;
    let mut i: usize = 0;
    while i < changes.len()
        invariant
            i <= changes.len(),
            all == components::change_views(changes@),
            before == old(values)@,
            forall|name: Seq<char>| #[trigger]
                state_of(values@, name) == overlaid(
                    state_of(before, name),
                    all.take(i as int),
                    name,
                ),
        decreases changes.len() - i,
    {
        let ghost was = values@;
        let value = StateValue {
            name: changes[i].state.clone(),
            value: changes[i].value.clone(),
        };
        keyed::place(values, value);
        proof {
            assert(all.take(i as int + 1).drop_last() =~= all.take(i as int));
            assert(all.take(i as int + 1).last() == all[i as int]);
            keyed::law_placed_item_is_found(was, value);
            assert forall|name: Seq<char>| #[trigger] state_of(values@, name) == overlaid(
                state_of(before, name),
                all.take(i as int + 1),
                name,
            ) by {
                keyed::lemma_first_key(was, name, 0);
                keyed::lemma_first_key(was, value.name@, 0);
                keyed::lemma_first_key(values@, name, 0);
                if name != value.name@ {
                    assert(keyed::first_key(values@, name, 0) == keyed::first_key(was, name, 0));
                    assert(state_of(was, name) == overlaid(
                        state_of(before, name),
                        all.take(i as int),
                        name,
                    ));
                }
            }
        }
        i += 1;
    }
    proof {
        assert(all.take(i as int) =~= all);
    }
}

/// What came of a click.
#[derive(Debug)]
pub struct ActionOutcome {
    /// How people are told.
    pub status: String,
    /// Whether states changed.
    pub changed: bool,
}

impl Authoring {
    /// Whether `values` are the values that the component runs with: those it has, or its
    /// defaults where it does not run yet.
    pub open spec fn runs_with(&self, component: NativeComponent, values: Seq<StateValue>) -> bool {
        match keyed::first_key(self.runtime@, component.id@, 0) {
            Some(i) => values == self.runtime@[i].values@,
            None => studio::holds_defaults(values, component.states@, component.states@.len()),
        }
    }

    /// Whether only this component's values may differ from what they were: they are the ones
    /// that are found, and every other component runs with the values that it ran with.
    pub open spec fn runs_anew(&self, before: Authoring, component_id: Seq<char>) -> bool {
        match keyed::first_key(self.runtime@, component_id, 0) {
            Some(i) => {
                &&& self.runtime@[i].component_id@ == component_id
                &&& self.runtime@ == keyed::placed(before.runtime@, self.runtime@[i])
            },
            None => false,
        }
    }

    /// The values that a component runs with; nothing where it does not exist.
    pub fn current_values(&self, component_id: &str) -> (out: Option<Vec<StateValue>>)
        ensures
            match self.library.lookup(component_id@) {
                Some(component) => out is Some && self.runs_with(component, out->0@),
                None => out is None,
            },
    {
        match self.library.component(component_id) {
            None => None,
            Some(component) => {
                proof {
                    keyed::lemma_first_key(self.library.components@, component_id@, 0);
                }
                match keyed::find(&self.runtime, component_id) {
                    Some(i) => {
                        let values = self.runtime[i].values.clone();
                        proof {
                            assert(values@ =~= self.runtime@[i as int].values@);
                        }
                        Some(values)
                    },
                    None => Some(studio::default_values(&component.states)),
                }
            },
        }
    }

    /// Runs the interactions of a click with this action on a node. `current` are the values
    /// that the component runs with, and `guards` tells of each of its rules whether its
    /// guard holds of them. The states that rules set take their values; later rules win.
    pub fn invoke_component_action(
        &mut self,
        component_id: &str,
        node_id: &str,
        action: &str,
        current: Vec<StateValue>,
        guards: &Vec<bool>,
    ) -> (outcome: ActionOutcome)
        requires
            match old(self).library.lookup(component_id@) {
                Some(component) => guards.len() == component.logic.len() && old(self).runs_with(
                    component,
                    current@,
                ),
                None => true,
            },
        ensures
            match old(self).library.lookup(component_id@) {
                None => {
                    &&& outcome.status@
                        == "Component action ignored because the document was removed"@
                    &&& !outcome.changed
                    &&& *final(self) == *old(self)
                },
                Some(component) => {
                    let changes = components::transitions_of(
                        component.logic@,
                        guards@,
                        node_id@,
                        action@,
                        component.logic@.len(),
                    );
                    &&& outcome.changed == (changes.len() > 0)
                    &&& outcome.status@ == component.name@ + " · "@ + action@ + (if changes.len()
                        > 0 {
                        " · state updated live"@
                    } else {
                        ""@
                    })
                    &&& *final(self) == (Authoring { runtime: final(self).runtime, ..*old(self) })
                    &&& changes.len() == 0 ==> final(self).runtime == old(self).runtime
                    &&& changes.len() > 0 ==> {
                        &&& keyed::first_key(final(self).runtime@, component_id@, 0) is Some
                        &&& forall|name: Seq<char>| #[trigger]
                            state_of(
                                final(self).runtime@[keyed::first_key(
                                    final(self).runtime@,
                                    component_id@,
                                    0,
                                )->0].values@,
                                name,
                            ) == overlaid(state_of(current@, name), changes, name)
                        &&& final(self).runs_anew(*old(self), component_id@)
                    }
                },
            },
    {
        let (name, changes) = match self.library.component(component_id) {
            None => {
                return ActionOutcome {
                    status: "Component action ignored because the document was removed".to_owned(),
                    changed: false,
                };
            },
            Some(component) => (
                component.name.clone(),
                components::component_logic_transitions(&component.logic, guards, node_id, action),
            ),
        };
        let status = text::join3(name.as_str(), " · ", action);
        if changes.len() == 0 {
            proof {
                reveal_strlit("");
                assert(status@ + ""@ =~= status@);
            }
            return ActionOutcome { status, changed: false };
        }
        let mut values = current;
        apply_changes(&mut values, &changes);
        let entry = ComponentRuntime { component_id: component_id.to_owned(), values };
        let ghost before = self.runtime@;
        keyed::place(&mut self.runtime, entry);
        proof {
            keyed::law_placed_item_is_found(before, entry);
        }
        ActionOutcome { status: text::join2(status.as_str(), " · state updated live"), changed: true }
    }
}

/// New values of one component leave the values of every other component as they were.
pub proof fn law_other_components_keep_their_values(
    before: Authoring,
    after: Authoring,
    component_id: Seq<char>,
    other: Seq<char>,
)
    requires
        after.runs_anew(before, component_id),
        other != component_id,
    ensures
        keyed::first_key(after.runtime@, other, 0) == keyed::first_key(before.runtime@, other, 0),
        match keyed::first_key(before.runtime@, other, 0) {
            Some(i) => after.runtime@[i] == before.runtime@[i],
            None => true,
        },
{
    let i = keyed::first_key(after.runtime@, component_id, 0)->0;
    keyed::law_placed_item_is_found(before.runtime@, after.runtime@[i]);
    keyed::lemma_first_key(before.runtime@, other, 0);
}

proof fn lemma_overlay(
    logic: Seq<components::ComponentLogic>,
    guards: Seq<bool>,
    node_id: Seq<char>,
    action: Seq<char>,
    count: nat,
    before: Option<Seq<char>>,
    name: Seq<char>,
)
    requires
        count <= logic.len(),
    ensures
        ({
            let changes = components::transitions_of(logic, guards, node_id, action, count);
            &&& (forall|i: int|
                0 <= i < count && #[trigger] components::fires(logic, guards, node_id, action, i)
                    ==> logic[i].target_state->0@ != name) ==> overlaid(before, changes, name)
                == before
            &&& forall|i: int|
                0 <= i < count && #[trigger] components::fires(logic, guards, node_id, action, i)
                    && logic[i].target_state->0@ == name && (forall|j: int|
                    i < j < count && #[trigger] components::fires(
                        logic,
                        guards,
                        node_id,
                        action,
                        j,
                    ) ==> logic[j].target_state->0@ != name) ==> overlaid(before, changes, name)
                    == Some(logic[i].value->0@)
            &&& changes.len() > 0 <==> exists|i: int|
                0 <= i < count && #[trigger] components::fires(logic, guards, node_id, action, i)
        }),
    decreases count,
{
    if count > 0 {
        let last = count - 1;
        lemma_overlay(logic, guards, node_id, action, last as nat, before, name);
        let earlier = components::transitions_of(logic, guards, node_id, action, last as nat);
        let changes = components::transitions_of(logic, guards, node_id, action, count);
        if components::fires(logic, guards, node_id, action, last) {
            assert(changes.drop_last() =~= earlier);
        }
    }
}

/// A click sets a state by the last rule that sets it among the rules of that node and action
/// whose guard holds: the state has that rule's value afterwards, whatever it was before.
pub proof fn law_last_rule_decides(
    logic: Seq<components::ComponentLogic>,
    guards: Seq<bool>,
    node_id: Seq<char>,
    action: Seq<char>,
    current: Seq<StateValue>,
    after: Seq<StateValue>,
    i: int,
)
    requires
        guards.len() == logic.len(),
        forall|name: Seq<char>| #[trigger]
            state_of(after, name) == overlaid(
                state_of(current, name),
                components::transitions_of(logic, guards, node_id, action, logic.len()),
                name,
            ),
        0 <= i < logic.len(),
        guards[i],
        logic[i].source_node@ == node_id,
        logic[i].event == components::ComponentEvent::Click,
        logic[i].action@ == action,
        logic[i].target_state is Some,
        logic[i].value is Some,
        forall|j: int|
            i < j < logic.len() && guards[j] && (#[trigger] logic[j]).source_node@ == node_id
            && logic[j].event == components::ComponentEvent::Click && logic[j].action@ == action
            && logic[j].target_state is Some && logic[j].value is Some ==> logic[j].target_state->0@
                != logic[i].target_state->0@,
    ensures
        keyed::first_key(after, logic[i].target_state->0@, 0) matches Some(k) && after[k].value@
            == logic[i].value->0@,
{
    let name = logic[i].target_state->0@;
    lemma_overlay(logic, guards, node_id, action, logic.len(), state_of(current, name), name);
    assert(components::fires(logic, guards, node_id, action, i));
    assert forall|j: int|
        i < j < logic.len() && #[trigger] components::fires(logic, guards, node_id, action, j) implies logic[j].target_state->0@
        != name by {
        assert(logic[j].source_node@ == node_id);
    }
    assert(state_of(after, name) == Some(logic[i].value->0@));
}

/// A click leaves alone every state that none of the rules of that node and action whose guard
/// holds sets.
pub proof fn law_other_states_keep_their_values(
    logic: Seq<components::ComponentLogic>,
    guards: Seq<bool>,
    node_id: Seq<char>,
    action: Seq<char>,
    current: Seq<StateValue>,
    after: Seq<StateValue>,
    name: Seq<char>,
)
    requires
        guards.len() == logic.len(),
        forall|name: Seq<char>| #[trigger]
            state_of(after, name) == overlaid(
                state_of(current, name),
                components::transitions_of(logic, guards, node_id, action, logic.len()),
                name,
            ),
        forall|i: int|
            0 <= i < logic.len() && guards[i] && (#[trigger] logic[i]).source_node@ == node_id
            && logic[i].event == components::ComponentEvent::Click && logic[i].action@ == action
            && logic[i].target_state is Some && logic[i].value is Some ==> logic[i].target_state->0@ != name,
    ensures
        match (keyed::first_key(after, name, 0), keyed::first_key(current, name, 0)) {
            (Some(k), Some(m)) => after[k].value@ == current[m].value@,
            (None, None) => true,
            _ => false,
        },
{
    lemma_overlay(logic, guards, node_id, action, logic.len(), state_of(current, name), name);
    assert forall|i: int|
        0 <= i < logic.len() && #[trigger] components::fires(logic, guards, node_id, action, i) implies logic[i].target_state->0@
        != name by {
        assert(logic[i].source_node@ == node_id);
    }
    assert(state_of(after, name) == state_of(current, name));
}

/// A click changes states just where a rule of that node and action, whose guard holds, sets
/// one.
pub proof fn law_clicks_change_states_by_rules(
    logic: Seq<components::ComponentLogic>,
    guards: Seq<bool>,
    node_id: Seq<char>,
    action: Seq<char>,
)
    requires
        guards.len() == logic.len(),
    ensures
        components::transitions_of(logic, guards, node_id, action, logic.len()).len() > 0
            <==> exists|i: int| 0 <= i < logic.len() && guards[i] && (#[trigger] logic[i]).source_node@ == node_id
            && logic[i].event == components::ComponentEvent::Click && logic[i].action@ == action
            && logic[i].target_state is Some && logic[i].value is Some,
{
    let n = logic.len();
    lemma_overlay(logic, guards, node_id, action, n, None, Seq::empty());
    if exists|i: int| 0 <= i < n && guards[i] && (#[trigger] logic[i]).source_node@ == node_id
            && logic[i].event == components::ComponentEvent::Click && logic[i].action@ == action
            && logic[i].target_state is Some && logic[i].value is Some {
        let i = choose|i: int| 0 <= i < n && guards[i] && (#[trigger] logic[i]).source_node@ == node_id
            && logic[i].event == components::ComponentEvent::Click && logic[i].action@ == action
            && logic[i].target_state is Some && logic[i].value is Some;
        assert(components::fires(logic, guards, node_id, action, i));
    }
    if components::transitions_of(logic, guards, node_id, action, n).len() > 0 {
        let i = choose|i: int|
            0 <= i < n && #[trigger] components::fires(logic, guards, node_id, action, i);
        assert(logic[i].source_node@ == node_id);
    }
}

/// A component runs with the values it has; one that does not run yet starts with the defaults of
/// its states.
pub proof fn law_components_run_with_their_values(
    authoring: Authoring,
    component: NativeComponent,
    values: Seq<StateValue>,
    i: int,
)
    requires
        authoring.runs_with(component, values),
        0 <= i <= authoring.runtime@.len(),
        i < authoring.runtime@.len() ==> authoring.runtime@[i].component_id@ == component.id@,
        forall|j: int| 0 <= j < i ==> #[trigger] authoring.runtime@[j].component_id@ != component.id@,
    ensures
        i < authoring.runtime@.len() ==> values == authoring.runtime@[i].values@,
        i == authoring.runtime@.len() ==> studio::holds_defaults(
            values,
            component.states@,
            component.states@.len(),
        ),
{
    keyed::lemma_first_key(authoring.runtime@, component.id@, 0);
}

} // verus!
