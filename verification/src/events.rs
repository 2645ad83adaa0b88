//! Pointer gestures, shortcuts and the right-click menu: what each asks the session to do.
use vstd::prelude::*;

use crate::components::NativeNodeKind;
use crate::float_bits::Float32;
use crate::studio;
use crate::studio::{ContextMenuState, ContextMenuTarget, PointerState, Review, StudioMode};
use crate::text;

verus! {

// ---------------------------------------------------------------------------
// Right-click menu
// ---------------------------------------------------------------------------

/// One executable entry in the right-click menu.
#[derive(Clone, Copy, Debug, PartialEq, Eq, Structural)]
pub enum ContextMenuAction {
    OpenComponent,
    InsertFrame,
    InsertRow,
    InsertText,
    InsertButton,
    WrapInFrame,
    Duplicate,
    Delete,
    Annotate,
    DeleteComponent,
}

impl ContextMenuAction {
    /// What the entry is called.
    pub open spec fn label_text(self) -> Seq<char> {
        match self {
            ContextMenuAction::OpenComponent => "Open component"@,
            ContextMenuAction::InsertFrame => "Insert frame"@,
            ContextMenuAction::InsertRow => "Insert row"@,
            ContextMenuAction::InsertText => "Insert text"@,
            ContextMenuAction::InsertButton => "Insert button"@,
            ContextMenuAction::WrapInFrame => "Wrap in frame"@,
            ContextMenuAction::Duplicate => "Duplicate"@,
            ContextMenuAction::Delete => "Delete"@,
            ContextMenuAction::Annotate => "Add annotation"@,
            ContextMenuAction::DeleteComponent => "Delete component"@,
        }
    }

    /// What the entry is called.
    pub fn label(self) -> (out: &'static str)
        ensures
            out@ == self.label_text(),
    {
        match self {
            ContextMenuAction::OpenComponent => "Open component",
            ContextMenuAction::InsertFrame => "Insert frame",
            ContextMenuAction::InsertRow => "Insert row",
            ContextMenuAction::InsertText => "Insert text",
            ContextMenuAction::InsertButton => "Insert button",
            ContextMenuAction::WrapInFrame => "Wrap in frame",
            ContextMenuAction::Duplicate => "Duplicate",
            ContextMenuAction::Delete => "Delete",
            ContextMenuAction::Annotate => "Add annotation",
            ContextMenuAction::DeleteComponent => "Delete component",
        }
    }

    /// The entry's name in semantic IDs.
    pub open spec fn slug_text(self) -> Seq<char> {
        match self {
            ContextMenuAction::OpenComponent => "open-component"@,
            ContextMenuAction::InsertFrame => "insert-frame"@,
            ContextMenuAction::InsertRow => "insert-row"@,
            ContextMenuAction::InsertText => "insert-text"@,
            ContextMenuAction::InsertButton => "insert-button"@,
            ContextMenuAction::WrapInFrame => "wrap-in-frame"@,
            ContextMenuAction::Duplicate => "duplicate"@,
            ContextMenuAction::Delete => "delete"@,
            ContextMenuAction::Annotate => "annotate"@,
            ContextMenuAction::DeleteComponent => "delete-component"@,
        }
    }

    /// The entry's name in semantic IDs.
    pub fn slug(self) -> (out: &'static str)
        ensures
            out@ == self.slug_text(),
    {
        match self {
            ContextMenuAction::OpenComponent => "open-component",
            ContextMenuAction::InsertFrame => "insert-frame",
            ContextMenuAction::InsertRow => "insert-row",
            ContextMenuAction::InsertText => "insert-text",
            ContextMenuAction::InsertButton => "insert-button",
            ContextMenuAction::WrapInFrame => "wrap-in-frame",
            ContextMenuAction::Duplicate => "duplicate",
            ContextMenuAction::Delete => "delete",
            ContextMenuAction::Annotate => "annotate",
            ContextMenuAction::DeleteComponent => "delete-component",
        }
    }

    /// Whether a separator stands above the entry.
    pub fn leads_group(self) -> (result: bool)
        ensures
            result == (self == ContextMenuAction::WrapInFrame || self
                == ContextMenuAction::Annotate || self == ContextMenuAction::InsertFrame || self
                == ContextMenuAction::DeleteComponent),
    {
        matches!(
            self,
            ContextMenuAction::WrapInFrame | ContextMenuAction::Annotate
            | ContextMenuAction::InsertFrame | ContextMenuAction::DeleteComponent
        )
    }
}

/// The edits on a node, in menu order.
pub open spec fn node_actions() -> Seq<ContextMenuAction> {
    seq![
        ContextMenuAction::InsertFrame,
        ContextMenuAction::InsertRow,
        ContextMenuAction::InsertText,
        ContextMenuAction::InsertButton,
        ContextMenuAction::WrapInFrame,
        ContextMenuAction::Duplicate,
        ContextMenuAction::Delete,
        ContextMenuAction::Annotate,
    ]
}

/// The entries of a menu: on a node the edits, led by opening it where it is an instance; on
/// a page layer annotating; on a library entry opening and deleting.
pub open spec fn menu_actions(target: ContextMenuTarget, kind: Option<NativeNodeKind>) -> Seq<
    ContextMenuAction,
> {
    match target {
        ContextMenuTarget::ComponentNode { .. } => if kind == Some(NativeNodeKind::Instance) {
            seq![ContextMenuAction::OpenComponent] + node_actions()
        } else {
            node_actions()
        },
        ContextMenuTarget::ProjectLayer => seq![ContextMenuAction::Annotate],
        ContextMenuTarget::PaletteComponent { .. } => seq![
            ContextMenuAction::OpenComponent,
            ContextMenuAction::DeleteComponent,
        ],
    }
}

/// Entries for the open menu, in display order; `kind` is what the node of the target is,
/// where it still exists.
pub fn context_menu_actions(target: &ContextMenuTarget, kind: Option<NativeNodeKind>) -> (out: Vec<
    ContextMenuAction,
>)
    ensures
        out@ == menu_actions(*target, kind),
{
    let mut out: Vec<ContextMenuAction> = Vec::new();
    match target {
        ContextMenuTarget::ComponentNode { .. } => {
            match kind {
                Some(NativeNodeKind::Instance) => {
                    out.push(ContextMenuAction::OpenComponent);
                },
                _ => {},
            }
            out.push(ContextMenuAction::InsertFrame);
            out.push(ContextMenuAction::InsertRow);
            out.push(ContextMenuAction::InsertText);
            out.push(ContextMenuAction::InsertButton);
            out.push(ContextMenuAction::WrapInFrame);
            out.push(ContextMenuAction::Duplicate);
            out.push(ContextMenuAction::Delete);
            out.push(ContextMenuAction::Annotate);
        },
        ContextMenuTarget::ProjectLayer => {
            out.push(ContextMenuAction::Annotate);
        },
        ContextMenuTarget::PaletteComponent { .. } => {
            out.push(ContextMenuAction::OpenComponent);
            out.push(ContextMenuAction::DeleteComponent);
        },
    }
    proof {
        assert(out@ =~= menu_actions(*target, kind));
    }
    out
}

/// What a menu entry asks for.
#[derive(Debug)]
pub enum MenuRequest {
    OpenDocument(String),
    Insert(NativeNodeKind),
    Wrap,
    Duplicate,
    Delete,
    Annotate,
    DeleteComponent(String),
    /// Nothing but telling people why.
    Tell(&'static str),
    Nothing,
}

/// The component that opening from this target opens; `instance_of` is the component that
/// the target's node is an instance of.
pub open spec fn opened_by(target: Option<ContextMenuTarget>, instance_of: Option<Seq<char>>) -> Option<
    Seq<char>,
> {
    match target {
        Some(ContextMenuTarget::ComponentNode { .. }) => instance_of,
        Some(ContextMenuTarget::PaletteComponent { component_id }) => Some(component_id@),
        _ => None,
    }
}

impl PointerState {
    /// Closes the menu and says what its entry asks for.
    pub fn run_context_menu_action(
        &mut self,
        action: ContextMenuAction,
        instance_of: Option<String>,
    ) -> (request: MenuRequest)
        ensures
            *final(self) == (PointerState { context_menu: None, ..*old(self) }),
            ({
                let target = match old(self).context_menu {
                    Some(menu) => Some(menu.target),
                    None => None,
                };
                match action {
                    ContextMenuAction::OpenComponent => match opened_by(
                        target,
                        text::text_view(instance_of),
                    ) {
                        Some(id) => request matches MenuRequest::OpenDocument(opened) && opened@
                            == id,
                        None => request matches MenuRequest::Tell(message) && message@
                            == "This node is not a component instance"@,
                    },
                    ContextMenuAction::InsertFrame => request == MenuRequest::Insert(
                        NativeNodeKind::Column,
                    ),
                    ContextMenuAction::InsertRow => request == MenuRequest::Insert(
                        NativeNodeKind::Row,
                    ),
                    ContextMenuAction::InsertText => request == MenuRequest::Insert(
                        NativeNodeKind::Text,
                    ),
                    ContextMenuAction::InsertButton => request == MenuRequest::Insert(
                        NativeNodeKind::Button,
                    ),
                    ContextMenuAction::WrapInFrame => request is Wrap,
                    ContextMenuAction::Duplicate => request is Duplicate,
                    ContextMenuAction::Delete => request is Delete,
                    ContextMenuAction::Annotate => request is Annotate,
                    ContextMenuAction::DeleteComponent => match target {
                        Some(ContextMenuTarget::PaletteComponent { component_id }) => {
                            request matches MenuRequest::DeleteComponent(id) && id@
                                == component_id@
                        },
                        _ => request is Nothing,
                    },
                }
            }),
    {
        let target = match self.context_menu.take() {
            Some(menu) => Some(menu.target),
            None => None,
        };
        match action {
            ContextMenuAction::OpenComponent => {
                let opened = match target {
                    Some(ContextMenuTarget::ComponentNode { .. }) => instance_of,
                    Some(ContextMenuTarget::PaletteComponent { component_id }) => Some(
                        component_id,
                    ),
                    _ => None,
                };
                match opened {
                    Some(id) => MenuRequest::OpenDocument(id),
                    None => MenuRequest::Tell("This node is not a component instance"),
                }
            },
            ContextMenuAction::InsertFrame => MenuRequest::Insert(NativeNodeKind::Column),
            ContextMenuAction::InsertRow => MenuRequest::Insert(NativeNodeKind::Row),
            ContextMenuAction::InsertText => MenuRequest::Insert(NativeNodeKind::Text),
            ContextMenuAction::InsertButton => MenuRequest::Insert(NativeNodeKind::Button),
            ContextMenuAction::WrapInFrame => MenuRequest::Wrap,
            ContextMenuAction::Duplicate => MenuRequest::Duplicate,
            ContextMenuAction::Delete => MenuRequest::Delete,
            ContextMenuAction::Annotate => MenuRequest::Annotate,
            ContextMenuAction::DeleteComponent => match target {
                Some(ContextMenuTarget::PaletteComponent { component_id }) => {
                    MenuRequest::DeleteComponent(component_id)
                },
                _ => MenuRequest::Nothing,
            },
        }
    }

    /// Closes the menu.
    pub fn close_context_menu(&mut self)
        ensures
            *final(self) == (PointerState { context_menu: None, ..*old(self) }),
    {
        self.context_menu = None;
    }

    /// Opens the menu on a node of the component graph.
    pub fn open_node_menu(&mut self, x: Float32, y: Float32, component_id: &str, node_id: &str)
        ensures
            *final(self) == (PointerState {
                context_menu: final(self).context_menu,
                ..*old(self)
            }),
            final(self).context_menu is Some,
            final(self).context_menu->0.x == x,
            final(self).context_menu->0.y == y,
            final(self).context_menu->0.target matches ContextMenuTarget::ComponentNode {
                component_id: c,
                node_id: n,
            } && c@ == component_id@ && n@ == node_id@,
    {
        self.context_menu = Some(
            ContextMenuState {
                x,
                y,
                target: ContextMenuTarget::ComponentNode {
                    component_id: component_id.to_owned(),
                    node_id: node_id.to_owned(),
                },
            },
        );
    }

    /// Highlights what the pointer is over. Tells whether the highlight changed.
    pub fn hover(&mut self, hovered: Option<String>) -> (changed: bool)
        ensures
            *final(self) == (PointerState { hovered: final(self).hovered, ..*old(self) }),
            text::text_view(final(self).hovered) == text::text_view(hovered),
            changed == (text::text_view(hovered) != text::text_view(old(self).hovered)),
    {
        let same = match (&self.hovered, &hovered) {
            (Some(a), Some(b)) => text::same_text(a.as_str(), b.as_str()),
            (None, None) => true,
            _ => false,
        };
        if same {
            false
        } else {
            self.hovered = hovered;
            true
        }
    }

    /// Highlights the node of the edited component that the pointer is over. Tells whether
    /// the highlight changed.
    pub fn hover_canvas_at(&mut self, component_id: &Option<String>, node_id: &Option<String>) -> (
        changed: bool)
        ensures
            *final(self) == (PointerState { hovered: final(self).hovered, ..*old(self) }),
            text::text_view(final(self).hovered) == (match (*component_id, *node_id) {
                (Some(component), Some(node)) => Some(
                    studio::component_runtime_id(component@, node@),
                ),
                _ => None,
            }),
            changed == (text::text_view(final(self).hovered) != text::text_view(
                old(self).hovered,
            )),
    {
        let hovered = match (component_id, node_id) {
            (Some(component), Some(node)) => Some(
                studio::runtime_id_of(component.as_str(), node.as_str()),
            ),
            _ => None,
        };
        self.hover(hovered)
    }
}

// ---------------------------------------------------------------------------
// Pointer gestures
// ---------------------------------------------------------------------------

/// A pointer gesture on a canvas node.
#[derive(Debug)]
pub enum ComponentPointerGesture {
    Select,
    Click { action: Option<String> },
    ContextMenu { x: Float32, y: Float32 },
    Hover,
}

/// What a gesture asks for.
#[derive(Debug)]
pub enum PointerRequest {
    Nothing,
    SelectNode,
    RunAction(String),
    Tell(&'static str),
    BeginAnnotation,
    /// Select the node and open the menu there.
    OpenMenu { x: Float32, y: Float32 },
    Highlight,
}

/// What a gesture asks for and whether the canvas has to be painted again; highlighting
/// decides that itself.
#[derive(Debug)]
pub struct PointerDecision {
    pub request: PointerRequest,
    pub repaint: bool,
}

/// Routes a gesture on a canvas node by mode: pressing selects in the select-capable modes;
/// clicking runs the node's interaction while testing and annotates while reviewing; the
/// secondary button opens the menu; hovering highlights.
pub fn handle_component_pointer(mode: StudioMode, gesture: ComponentPointerGesture) -> (decision:
    PointerDecision)
    ensures
        match gesture {
            ComponentPointerGesture::Select => if mode == StudioMode::Design || mode
                == StudioMode::Source {
                decision.request is SelectNode && decision.repaint
            } else {
                decision.request is Nothing && !decision.repaint
            },
            ComponentPointerGesture::Click { action } => {
                &&& decision.repaint
                &&& match mode {
                    StudioMode::Test => match action {
                        Some(action) => decision.request == PointerRequest::RunAction(action),
                        None => decision.request matches PointerRequest::Tell(message) && message@
                            == "Test mode runs interactions · this element has no click action"@,
                    },
                    StudioMode::Compare => decision.request is BeginAnnotation,
                    _ => decision.request is Nothing,
                }
            },
            ComponentPointerGesture::ContextMenu { x, y } => decision.request
                == (PointerRequest::OpenMenu { x, y }) && decision.repaint,
            ComponentPointerGesture::Hover => decision.request is Highlight && !decision.repaint,
        },
{
    match gesture {
        ComponentPointerGesture::Select => match mode {
            StudioMode::Design | StudioMode::Source => PointerDecision {
                request: PointerRequest::SelectNode,
                repaint: true,
            },
            StudioMode::Test | StudioMode::Compare | StudioMode::Move => PointerDecision {
                request: PointerRequest::Nothing,
                repaint: false,
            },
        },
        ComponentPointerGesture::Click { action } => {
            let request = match mode {
                StudioMode::Test => match action {
                    Some(action) => PointerRequest::RunAction(action),
                    None => PointerRequest::Tell(
                        "Test mode runs interactions · this element has no click action",
                    ),
                },
                StudioMode::Compare => PointerRequest::BeginAnnotation,
                StudioMode::Design | StudioMode::Source | StudioMode::Move => {
                    PointerRequest::Nothing
                },
            };
            PointerDecision { request, repaint: true }
        },
        ComponentPointerGesture::ContextMenu { x, y } => PointerDecision {
            request: PointerRequest::OpenMenu { x, y },
            repaint: true,
        },
        ComponentPointerGesture::Hover => PointerDecision {
            request: PointerRequest::Highlight,
            repaint: false,
        },
    }
}

/// What a click on the canvas asks for while annotating.
#[derive(Debug)]
pub enum AnnotateRequest {
    Nothing,
    Tell(&'static str),
    Begin { component_id: String, node_id: String },
}

/// Starts an annotation on the node under the pointer; over empty space people are told how.
pub fn annotate_canvas_at(component_id: Option<String>, node_id: Option<String>) -> (request:
    AnnotateRequest)
    ensures
        match (component_id, node_id) {
            (None, _) => request is Nothing,
            (Some(_), None) => request matches AnnotateRequest::Tell(message) && message@
                == "Hover an element, then click to annotate it"@,
            (Some(component), Some(node)) => request == (AnnotateRequest::Begin {
                component_id: component,
                node_id: node,
            }),
        },
{
    match (component_id, node_id) {
        (None, _) => AnnotateRequest::Nothing,
        (Some(_), None) => AnnotateRequest::Tell("Hover an element, then click to annotate it"),
        (Some(component_id), Some(node_id)) => AnnotateRequest::Begin { component_id, node_id },
    }
}

// ---------------------------------------------------------------------------
// Shortcuts
// ---------------------------------------------------------------------------

/// What a key press asks for.
#[derive(Clone, Copy, Debug, PartialEq, Eq, Structural)]
pub enum KeyRequest {
    Nothing,
    /// Close the menu and the annotation editor, and end the drag preview.
    DismissOverlays,
    /// Nudge the pending drop by this much.
    NudgeDrop(i32),
    EnterMode(StudioMode),
    Annotate,
}

/// What a key press asks for: with modifiers nothing; Escape dismisses what is open; brackets
/// nudge a pending drop; while no text is being typed the tool letters switch tools: V selects,
/// H or M pans, C comments, P previews.
pub open spec fn key_request(
    key: Seq<char>,
    modifiers: bool,
    overlays: bool,
    dragging: bool,
    typing: bool,
) -> KeyRequest {
    if modifiers {
        KeyRequest::Nothing
    } else if key == "escape"@ {
        if overlays {
            KeyRequest::DismissOverlays
        } else {
            KeyRequest::Nothing
        }
    } else if dragging && key == "["@ {
        KeyRequest::NudgeDrop((-1) as i32)
    } else if dragging && key == "]"@ {
        KeyRequest::NudgeDrop(1)
    } else if typing {
        KeyRequest::Nothing
    } else if key == "v"@ {
        KeyRequest::EnterMode(StudioMode::Design)
    } else if key == "h"@ || key == "m"@ {
        KeyRequest::EnterMode(StudioMode::Move)
    } else if key == "c"@ {
        KeyRequest::Annotate
    } else if key == "p"@ {
        KeyRequest::EnterMode(StudioMode::Test)
    } else {
        KeyRequest::Nothing
    }
}

/// Whether Escape has anything to dismiss.
pub open spec fn overlays_open(pointer: PointerState, review: Review) -> bool {
    pointer.context_menu is Some || review.popover_open || pointer.drag_preview is Some
}

/// What a key press asks for; `typing` tells whether a text field has the keyboard.
pub fn handle_global_keystroke(
    pointer: &PointerState,
    review: &Review,
    key: &str,
    modifiers: bool,
    typing: bool,
) -> (request: KeyRequest)
    ensures
        request == key_request(
            key@,
            modifiers,
            overlays_open(*pointer, *review),
            pointer.drag_preview is Some,
            typing,
        ),
{
    if modifiers {
        return KeyRequest::Nothing;
    }
    let dragging = pointer.drag_preview.is_some();
    if text::same_text(key, "escape") {
        return if pointer.context_menu.is_some() || review.popover_open || dragging {
            KeyRequest::DismissOverlays
        } else {
            KeyRequest::Nothing
        };
    }
    if dragging && text::same_text(key, "[") {
        return KeyRequest::NudgeDrop(-1);
    }
    if dragging && text::same_text(key, "]") {
        return KeyRequest::NudgeDrop(1);
    }
    if typing {
        return KeyRequest::Nothing;
    }
    if text::same_text(key, "v") {
        KeyRequest::EnterMode(StudioMode::Design)
    } else if text::same_text(key, "h") || text::same_text(key, "m") {
        KeyRequest::EnterMode(StudioMode::Move)
    } else if text::same_text(key, "c") {
        KeyRequest::Annotate
    } else if text::same_text(key, "p") {
        KeyRequest::EnterMode(StudioMode::Test)
    } else {
        KeyRequest::Nothing
    }
}

/// Dismisses everything that Escape closes.
pub fn dismiss_overlays(pointer: &mut PointerState, review: &mut Review)
    ensures
        *final(pointer) == (PointerState {
            context_menu: None,
            drag_preview: None,
            ..*old(pointer)
        }),
        *final(review) == (Review { popover_open: false, ..*old(review) }),
{
    pointer.context_menu = None;
    pointer.drag_preview = None;
    review.popover_open = false;
}

/// Typing never switches tools: while a text field has the keyboard, the only keys that do
/// anything are Escape and, during a drag, the brackets.
pub proof fn law_typing_never_switches_tools(
    key: Seq<char>,
    modifiers: bool,
    overlays: bool,
    dragging: bool,
)
    ensures
        !(key_request(key, modifiers, overlays, dragging, true) is EnterMode),
        !(key_request(key, modifiers, overlays, dragging, true) is Annotate),
{
}

/// After Escape dismissed what was open, there is nothing left to dismiss.
pub proof fn law_dismissed_overlays_are_closed(pointer: PointerState, review: Review)
    ensures
        !overlays_open(
            PointerState { context_menu: None, drag_preview: None, ..pointer },
            Review { popover_open: false, ..review },
        ),
{
}

/// A node's menu offers the edits and annotating, and opening only on an instance; a library
/// entry is opened or deleted; and a page layer is only annotated.
pub proof fn law_menus_offer_what_applies(
    target: ContextMenuTarget,
    kind: Option<NativeNodeKind>,
    action: ContextMenuAction,
)
    ensures
        menu_actions(target, kind).contains(action) <==> (match action {
            ContextMenuAction::OpenComponent => target is PaletteComponent || target
                is ComponentNode && kind == Some(NativeNodeKind::Instance),
            ContextMenuAction::DeleteComponent => target is PaletteComponent,
            ContextMenuAction::Annotate => !(target is PaletteComponent),
            _ => target is ComponentNode,
        }),
        menu_actions(target, kind).no_duplicates(),
        menu_actions(target, kind).contains(ContextMenuAction::OpenComponent) ==> menu_actions(
            target,
            kind,
        )[0] == ContextMenuAction::OpenComponent,
        !(target is PaletteComponent) ==> menu_actions(target, kind).last()
            == ContextMenuAction::Annotate,
{
    let edits = node_actions();
    assert(edits[0] == ContextMenuAction::InsertFrame && edits[1] == ContextMenuAction::InsertRow);
    assert(edits[2] == ContextMenuAction::InsertText && edits[3]
        == ContextMenuAction::InsertButton);
    assert(edits[4] == ContextMenuAction::WrapInFrame && edits[5] == ContextMenuAction::Duplicate);
    assert(edits[6] == ContextMenuAction::Delete && edits[7] == ContextMenuAction::Annotate);
    let all = menu_actions(target, kind);
    let shift: int = if target is ComponentNode && kind == Some(NativeNodeKind::Instance) {
        1
    } else {
        0
    };
    if target is ComponentNode {
        assert(all.len() == 8 + shift);
        assert(forall|i: int| 0 <= i < 8 ==> #[trigger] edits[i] == all[i + shift]);
        assert(all[shift] == edits[0] && all[shift + 1] == edits[1] && all[shift + 2] == edits[2]);
        assert(all[shift + 3] == edits[3] && all[shift + 4] == edits[4] && all[shift + 5]
            == edits[5]);
        assert(all[shift + 6] == edits[6] && all[shift + 7] == edits[7]);
    } else if target is ProjectLayer {
        assert(all[0] == ContextMenuAction::Annotate);
    } else {
        assert(all[0] == ContextMenuAction::OpenComponent && all[1]
            == ContextMenuAction::DeleteComponent);
    }
}

/// Opening from a library entry opens that component, and from a node the one that the node is
/// an instance of; from anywhere else nothing opens.
pub proof fn law_menus_open_components(
    target: Option<ContextMenuTarget>,
    instance_of: Option<Seq<char>>,
)
    ensures
        match target {
            Some(ContextMenuTarget::PaletteComponent { component_id }) => opened_by(
                target,
                instance_of,
            ) == Some(component_id@),
            Some(ContextMenuTarget::ComponentNode { .. }) => opened_by(target, instance_of)
                == instance_of,
            _ => opened_by(target, instance_of) is None,
        },
{
}

/// Each entry of a menu is called by what it does.
pub proof fn law_entries_are_named(x: ContextMenuAction)
    ensures
        x is OpenComponent ==> x.label_text() == "Open component"@,
        x is InsertFrame ==> x.label_text() == "Insert frame"@,
        x is InsertRow ==> x.label_text() == "Insert row"@,
        x is InsertText ==> x.label_text() == "Insert text"@,
        x is InsertButton ==> x.label_text() == "Insert button"@,
        x is WrapInFrame ==> x.label_text() == "Wrap in frame"@,
        x is Duplicate ==> x.label_text() == "Duplicate"@,
        x is Delete ==> x.label_text() == "Delete"@,
        x is Annotate ==> x.label_text() == "Add annotation"@,
        x is DeleteComponent ==> x.label_text() == "Delete component"@,
{
}

/// Each entry of a menu has its own name in semantic IDs.
pub proof fn law_entries_have_ids(x: ContextMenuAction)
    ensures
        x is OpenComponent ==> x.slug_text() == "open-component"@,
        x is InsertFrame ==> x.slug_text() == "insert-frame"@,
        x is InsertRow ==> x.slug_text() == "insert-row"@,
        x is InsertText ==> x.slug_text() == "insert-text"@,
        x is InsertButton ==> x.slug_text() == "insert-button"@,
        x is WrapInFrame ==> x.slug_text() == "wrap-in-frame"@,
        x is Duplicate ==> x.slug_text() == "duplicate"@,
        x is Delete ==> x.slug_text() == "delete"@,
        x is Annotate ==> x.slug_text() == "annotate"@,
        x is DeleteComponent ==> x.slug_text() == "delete-component"@,
{
}

} // verus!
