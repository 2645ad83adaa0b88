//! The canvas: what it shows, and what the pointer does on it besides gestures on nodes.
use vstd::prelude::*;

use crate::drag::DropPreviewSpec;
use crate::keyed;
use crate::overlays;
use crate::studio;
use crate::studio::{Authoring, ComponentRuntime, PointerState, StateValue, StudioMode};

verus! {

/// A component as the canvas shows it.
#[derive(Debug)]
pub struct ShownComponent {
    pub component_id: String,
    /// The values that its states have.
    pub values: Vec<StateValue>,
    /// Whether its nodes react to the pointer.
    pub interactive: bool,
    /// Whether its nodes can be grabbed and moved.
    pub draggable: bool,
    /// The space that is held open for a pending drop.
    pub drop: Option<DropPreviewSpec>,
}

/// What the canvas shows.
#[derive(Debug)]
pub enum CanvasContent {
    Component(ShownComponent),
    /// The live page.
    Page,
    /// Nothing but this text.
    Text(&'static str),
}

/// Whether the component runs with these values from now on: those it had, or its defaults,
/// with which it starts to run.
pub open spec fn runs_on(
    before: Authoring,
    after: Authoring,
    id: Seq<char>,
    states: Seq<crate::components::ComponentState>,
    values: Seq<StateValue>,
) -> bool {
    match keyed::first_key(before.runtime@, id, 0) {
        Some(i) => after == before && values == before.runtime@[i].values@,
        None => {
            &&& after == (Authoring { runtime: after.runtime, ..before })
            &&& after.runtime@ == before.runtime@.push(after.runtime@.last())
            &&& after.runtime@.last().component_id@ == id
            &&& after.runtime@.last().values@ == values
            &&& studio::holds_defaults(values, states, states.len())
        },
    }
}

/// What the canvas shows: the active component while a component graph is edited, else the
/// live page.
pub fn canvas_content(
    authoring: &mut Authoring,
    pointer: &PointerState,
    mode: StudioMode,
    live: bool,
) -> (content: CanvasContent)
    ensures
        if old(authoring).active_component() is None {
            &&& *final(authoring) == *old(authoring)
            &&& if live {
                content is Page
            } else {
                content matches CanvasContent::Text(message) && message@
                    == "No project document"@
            }
        } else {
            let library = old(authoring).library;
            match library.lookup(library.active_component@) {
                None => {
                    &&& *final(authoring) == *old(authoring)
                    &&& content matches CanvasContent::Text(message)
                    &&& message@ == "No component document"@
                },
                Some(component) => {
                    &&& content matches CanvasContent::Component(shown)
                    &&& shown.component_id@ == component.id@
                    &&& runs_on(
                        *old(authoring),
                        *final(authoring),
                        component.id@,
                        component.states@,
                        shown.values@,
                    )
                    &&& shown.interactive == (mode != StudioMode::Move)
                    &&& shown.draggable == (mode == StudioMode::Design)
                    &&& match pointer.drag_preview {
                        Some(preview) => shown.drop is Some && preview.shown_as(shown.drop->0),
                        None => shown.drop is None,
                    }
                },
            }
        },
{
    if !authoring.editing_component_graph() {
        return if live {
            CanvasContent::Page
        } else {
            CanvasContent::Text("No project document")
        };
    }
    let (component_id, defaults) = match authoring.library.active() {
        None => return CanvasContent::Text("No component document"),
        Some(component) => (component.id.clone(), studio::default_values(&component.states)),
    };
    let values = match keyed::find(&authoring.runtime, component_id.as_str()) {
        Some(i) => {
            let values = authoring.runtime[i].values.clone();
            proof {
                assert(values@ =~= authoring.runtime@[i as int].values@);
            }
            values
        },
        None => {
            let values = defaults.clone();
            proof {
                assert(values@ =~= defaults@);
            }
            authoring.runtime.push(
                ComponentRuntime { component_id: component_id.clone(), values: defaults },
            );
            values
        },
    };
    let behavior = overlays::canvas_behavior(mode);
    CanvasContent::Component(
        ShownComponent {
            component_id,
            values,
            interactive: behavior.interactive,
            draggable: behavior.draggable,
            drop: match &pointer.drag_preview {
                Some(preview) => Some(preview.spec()),
                None => None,
            },
        },
    )
}

/// What is dragged over the canvas.
#[derive(Debug)]
pub enum CanvasPayload {
    /// A component of the palette.
    Palette { component_id: String },
    /// A row of a layer list.
    TreeNode,
    /// A node of the canvas itself.
    CanvasNode,
    /// Anything else.
    Foreign,
}

/// Whether the canvas takes what is dragged over it; `cycles` tells whether placing a component
/// of the palette into the edited one would make it contain itself.
pub fn can_drop_on_canvas(authoring: &Authoring, payload: &CanvasPayload, cycles: bool) -> (result:
    bool)
    ensures
        result == (match *payload {
            CanvasPayload::Palette { .. } => authoring.active_component() is Some && !cycles,
            CanvasPayload::TreeNode | CanvasPayload::CanvasNode => true,
            CanvasPayload::Foreign => false,
        }),
{
    match payload {
        CanvasPayload::Palette { .. } => authoring.editing_component_graph() && !cycles,
        CanvasPayload::TreeNode | CanvasPayload::CanvasNode => true,
        CanvasPayload::Foreign => false,
    }
}

impl PointerState {
    /// The pointer moves over empty canvas, where nothing is hovered; `panned` tells whether it
    /// moved the canvas. Tells whether the canvas has to be painted again.
    pub fn move_over_canvas(&mut self, mode: StudioMode, panned: bool) -> (repaint: bool)
        ensures
            if mode == StudioMode::Move && panned {
                repaint && *final(self) == *old(self)
            } else {
                &&& repaint == (old(self).hovered is Some)
                &&& *final(self) == (PointerState { hovered: None, ..*old(self) })
            },
    {
        if mode == StudioMode::Move && panned {
            return true;
        }
        let hovered = self.hovered.is_some();
        self.hovered = None;
        hovered
    }

    /// The pointer is released; `panned` tells whether a move of the canvas ended with that.
    /// Tells whether the canvas has to be painted again.
    pub fn release_on_canvas(&mut self, panned: bool) -> (repaint: bool)
        ensures
            repaint == (old(self).drag_preview is Some || panned),
            *final(self) == (PointerState { drag_preview: None, ..*old(self) }),
    {
        let cleared = self.clear_drag_preview();
        cleared || panned
    }
}

/// A component that is shown keeps the values it has: showing the canvas again changes nothing.
pub proof fn law_shown_components_keep_their_values(
    before: Authoring,
    shown: Authoring,
    again: Authoring,
    id: Seq<char>,
    states: Seq<crate::components::ComponentState>,
    values: Seq<StateValue>,
    later: Seq<StateValue>,
)
    requires
        runs_on(before, shown, id, states, values),
        runs_on(shown, again, id, states, later),
    ensures
        again == shown,
        later == values,
{
    keyed::lemma_first_key(before.runtime@, id, 0);
    keyed::lemma_first_key(shown.runtime@, id, 0);
    match keyed::first_key(before.runtime@, id, 0) {
        Some(_) => {},
        None => {
            let last = shown.runtime@.len() - 1;
            assert(shown.runtime@[last].component_id@ == id);
            match keyed::first_key(shown.runtime@, id, 0) {
                Some(i) => {
                    if i < last {
                        assert(shown.runtime@[i] == before.runtime@[i]);
                    }
                },
                None => {},
            }
        },
    }
}

} // verus!
